//! Choosing the GPU and the queue family that the renderer uses.
//!
//! The renderer takes the first physical device, in the driver's order, that
//! has a queue family supporting both graphics and presentation to the
//! window's surface, and within that device the first such family.  The
//! driver is asked about one device or family at a time, so the search is a
//! state machine: each step either asks one question of the driver or ends
//! the search, and the answer feeds the next step.
use vstd::prelude::*;
use crate::vk::QUEUE_GRAPHICS_BIT;

verus! {

/// A question that the search puts to the driver.
#[derive(Clone, Copy, Debug, PartialEq, Eq, Structural)]
pub enum SearchQuery {
    /// The queue flags of each queue family of this physical device.
    QueueFamilies { device: usize },
    /// Whether this queue family of this device can present to the surface.
    SurfaceSupport { device: usize, family: u32 },
}

/// What the search does next.
#[derive(Clone, Copy, Debug, PartialEq, Eq, Structural)]
pub enum SearchStep {
    Query(SearchQuery),
    /// This device and queue family are the renderer's choice.
    Selected { device: usize, family: u32 },
    /// No device has a family that supports graphics and presentation.
    NoSuitableDevice,
}

/// The device and family whose surface support `step` asks about, if any.
pub open spec fn support_query(step: SearchStep) -> Option<(usize, u32)> {
    match step {
        SearchStep::Query(SearchQuery::SurfaceSupport { device, family }) => Some((device, family)),
        _ => None,
    }
}

/// The family's queue flags include graphics.
pub open spec fn has_graphics(flags: u32) -> bool {
    flags & QUEUE_GRAPHICS_BIT == QUEUE_GRAPHICS_BIT
}

/// Family `i` of device `d` is ruled out: it lacks graphics, or the driver
/// said that it cannot present to the surface.
pub open spec fn pair_rejected(known: Seq<Seq<u32>>, answers: Map<(int, int), bool>, d: int, i: int) -> bool {
    !has_graphics(known[d][i]) || (answers.contains_key((d, i)) && !answers[(d, i)])
}

/// Every known family that comes before family `i` of device `d`, in the
/// driver's order of devices and then of families, is ruled out.
pub open spec fn all_rejected_before(known: Seq<Seq<u32>>, answers: Map<(int, int), bool>, d: int, i: int) -> bool {
    forall|d2: int, i2: int|
        0 <= d2 < known.len() && 0 <= i2 < known[d2].len() && (d2 < d || (d2 == d && i2 < i))
            ==> #[trigger] pair_rejected(known, answers, d2, i2)
}

/// Every question about surface support was about a family before family
/// `i` of device `d`.
pub open spec fn answers_before(answers: Map<(int, int), bool>, d: int, i: int) -> bool {
    forall|k: (int, int)| #[trigger] answers.contains_key(k) ==> (k.0 < d || (k.0 == d && k.1 < i))
}

/// Surface support was asked only of known families that support graphics.
pub open spec fn answers_only_graphics(known: Seq<Seq<u32>>, answers: Map<(int, int), bool>) -> bool {
    forall|k: (int, int)| #[trigger] answers.contains_key(k)
        ==> 0 <= k.0 < known.len() && 0 <= k.1 < known[k.0].len() && has_graphics(known[k.0][k.1])
}

/// `step` is the step that the search takes once it knows the queue flags
/// `known` of the first devices and the surface-support `answers`, with
/// `count` devices in all.
pub open spec fn step_fits(known: Seq<Seq<u32>>, answers: Map<(int, int), bool>, count: int, step: SearchStep) -> bool {
    match step {
        SearchStep::Query(SearchQuery::QueueFamilies { device }) => {
            &&& device == known.len()
            &&& device < count
            &&& all_rejected_before(known, answers, device as int, 0)
            &&& answers_before(answers, device as int, 0)
        },
        SearchStep::Query(SearchQuery::SurfaceSupport { device, family }) => {
            &&& device < count
            &&& device + 1 == known.len()
            &&& family < known[device as int].len()
            &&& has_graphics(known[device as int][family as int])
            &&& all_rejected_before(known, answers, device as int, family as int)
            &&& answers_before(answers, device as int, family as int)
        },
        SearchStep::Selected { device, family } => {
            &&& device < count
            &&& device + 1 == known.len()
            &&& family < known[device as int].len()
            &&& has_graphics(known[device as int][family as int])
            &&& answers.contains_key((device as int, family as int))
            &&& answers[(device as int, family as int)]
            &&& all_rejected_before(known, answers, device as int, family as int)
            &&& answers_before(answers, device as int, family + 1)
        },
        SearchStep::NoSuitableDevice => {
            &&& known.len() == count
            &&& all_rejected_before(known, answers, count, 0)
            &&& answers_before(answers, count, 0)
        },
    }
}

/// The search's next step is determined by what the driver has reported so
/// far: no two different steps fit the same queue flags and answers.
pub proof fn lemma_step_determined(
    known: Seq<Seq<u32>>,
    answers: Map<(int, int), bool>,
    count: int,
    s1: SearchStep,
    s2: SearchStep,
)
    requires
        step_fits(known, answers, count, s1),
        step_fits(known, answers, count, s2),
    ensures
        s1 == s2,
{
    // The pair that a step waits on or selects is not ruled out, so no other
    // step may claim that everything up to and past it is ruled out.
    match s1 {
        SearchStep::Query(SearchQuery::SurfaceSupport { device, family }) => {
            assert(!answers.contains_key((device as int, family as int)));
            assert(!pair_rejected(known, answers, device as int, family as int));
        },
        SearchStep::Selected { device, family } => {
            assert(!pair_rejected(known, answers, device as int, family as int));
        },
        _ => {},
    }
    match s2 {
        SearchStep::Query(SearchQuery::SurfaceSupport { device, family }) => {
            assert(!answers.contains_key((device as int, family as int)));
            assert(!pair_rejected(known, answers, device as int, family as int));
        },
        SearchStep::Selected { device, family } => {
            assert(!pair_rejected(known, answers, device as int, family as int));
        },
        _ => {},
    }
}

/// In a driver that reports the queue flags `flags` and the surface support
/// `support`, family `i` of device `d` supports graphics and presentation.
pub open spec fn oracle_suitable(flags: Seq<Seq<u32>>, support: spec_fn(int, int) -> bool, d: int, i: int) -> bool {
    &&& 0 <= d < flags.len()
    &&& 0 <= i < flags[d].len()
    &&& has_graphics(flags[d][i])
    &&& support(d, i)
}

/// What the search learned agrees with a driver that reports `flags` and
/// `support`.
pub open spec fn agrees_with(
    known: Seq<Seq<u32>>,
    answers: Map<(int, int), bool>,
    flags: Seq<Seq<u32>>,
    support: spec_fn(int, int) -> bool,
) -> bool {
    &&& known.len() <= flags.len()
    &&& forall|d: int| 0 <= d < known.len() ==> #[trigger] known[d] == flags[d]
    &&& forall|k: (int, int)| #[trigger] answers.contains_key(k) ==> answers[k] == support(k.0, k.1)
}

/// Whatever the driver reports, a search that selects a device and family
/// has selected the first pair, in the driver's order of devices and then
/// of families, whose family supports both graphics and presentation.
pub proof fn lemma_selected_is_first_suitable(
    known: Seq<Seq<u32>>,
    answers: Map<(int, int), bool>,
    count: int,
    flags: Seq<Seq<u32>>,
    support: spec_fn(int, int) -> bool,
    device: usize,
    family: u32,
)
    requires
        step_fits(known, answers, count, SearchStep::Selected { device, family }),
        agrees_with(known, answers, flags, support),
    ensures
        oracle_suitable(flags, support, device as int, family as int),
        forall|d: int, i: int|
            (d < device || (d == device && i < family)) ==> !#[trigger] oracle_suitable(flags, support, d, i),
{
    assert(known[device as int] == flags[device as int]);
    assert forall|d: int, i: int| (d < device || (d == device && i < family))
        implies !#[trigger] oracle_suitable(flags, support, d, i) by {
        if oracle_suitable(flags, support, d, i) {
            assert(known[d] == flags[d]);
            assert(pair_rejected(known, answers, d, i));
        }
    }
}

/// Whatever the driver reports about its `count` devices, a search that
/// finds no suitable device has seen every device, and no family of any
/// device supports both graphics and presentation.
pub proof fn lemma_no_suitable_device_means_none(
    known: Seq<Seq<u32>>,
    answers: Map<(int, int), bool>,
    count: int,
    flags: Seq<Seq<u32>>,
    support: spec_fn(int, int) -> bool,
)
    requires
        step_fits(known, answers, count, SearchStep::NoSuitableDevice),
        agrees_with(known, answers, flags, support),
        flags.len() == count,
    ensures
        forall|d: int, i: int| !#[trigger] oracle_suitable(flags, support, d, i),
{
    assert forall|d: int, i: int| !#[trigger] oracle_suitable(flags, support, d, i) by {
        if oracle_suitable(flags, support, d, i) {
            assert(known[d] == flags[d]);
            assert(pair_rejected(known, answers, d, i));
        }
    }
}

/// A queue family supports graphics exactly when its flags are odd, that
/// is when bit 0 (GRAPHICS) is set, whatever other bits are set with it.
pub proof fn lemma_has_graphics_is_bit_zero(flags: u32)
    ensures
        has_graphics(flags) <==> flags % 2 == 1,
{
    assert((flags & 1u32 == 1u32) <==> flags % 2 == 1) by (bit_vector);
}

/// Once the first device reports its families, the search asks about the
/// surface support of its first family whose flags have the GRAPHICS bit,
/// whatever other bits that family and the ones before it have.
pub proof fn lemma_first_graphics_family_is_asked(flags: Seq<u32>, count: int, i: int)
    requires
        count > 0,
        0 <= i < flags.len(),
        i <= u32::MAX,
        flags[i] % 2 == 1,
        forall|j: int| 0 <= j < i ==> #[trigger] flags[j] % 2 == 0,
    ensures
        step_fits(seq![flags], Map::<(int, int), bool>::empty(), count,
            SearchStep::Query(SearchQuery::SurfaceSupport { device: 0, family: i as u32 })),
{
    let known = seq![flags];
    let answers = Map::<(int, int), bool>::empty();
    lemma_has_graphics_is_bit_zero(flags[i]);
    assert forall|d2: int, i2: int|
        0 <= d2 < known.len() && 0 <= i2 < known[d2].len() && (d2 < 0 || (d2 == 0 && i2 < i))
        implies #[trigger] pair_rejected(known, answers, d2, i2) by {
        assert(known[d2] == flags);
        lemma_has_graphics_is_bit_zero(flags[i2]);
        assert(flags[i2] % 2 == 0);
    }
}

/// The state of a search for a device and queue family.
pub struct DeviceSearch {
    device_count: usize,
    /// Queue flags of the families of `device`, once the driver gave them.
    families: Vec<u32>,
    device: usize,
    family: usize,
    awaiting: SearchStep,
    known: Ghost<Seq<Seq<u32>>>,
    answers: Ghost<Map<(int, int), bool>>,
}

impl DeviceSearch {
    pub closed spec fn device_count(&self) -> nat {
        self.device_count as nat
    }

    /// The queue flags of each family of the devices asked about so far.
    pub closed spec fn known_flags(&self) -> Seq<Seq<u32>> {
        self.known@
    }

    /// The driver's answers so far: whether family `k.1` of device `k.0`
    /// can present to the surface.
    pub closed spec fn answers(&self) -> Map<(int, int), bool> {
        self.answers@
    }

    /// The last step that the search took.
    pub closed spec fn awaiting(&self) -> SearchStep {
        self.awaiting
    }

    pub closed spec fn wf(&self) -> bool {
        &&& self.device_count > 0
        &&& step_fits(self.known@, self.answers@, self.device_count as int, self.awaiting)
        &&& answers_only_graphics(self.known@, self.answers@)
        &&& forall|d: int| 0 <= d < self.known@.len() ==> #[trigger] self.known@[d].len() <= u32::MAX
        &&& match self.awaiting {
            SearchStep::Query(SearchQuery::QueueFamilies { device }) => self.device == device,
            SearchStep::Query(SearchQuery::SurfaceSupport { device, family }) => {
                &&& self.device == device
                &&& self.family == family
                &&& self.families@ == self.known@[device as int]
            },
            _ => true,
        }
    }

    /// The search waits for the queue flags of a device.
    pub open spec fn awaits_queue_families(&self) -> bool {
        self.awaiting() matches SearchStep::Query(SearchQuery::QueueFamilies { .. })
    }

    /// The search waits for an answer about surface support.
    pub open spec fn awaits_surface_support(&self) -> bool {
        self.awaiting() matches SearchStep::Query(SearchQuery::SurfaceSupport { .. })
    }

    /// Starts a search over `device_count` physical devices; its first step
    /// asks for the queue families of the first device.
    pub fn start(device_count: usize) -> (res: (DeviceSearch, SearchStep))
        requires
            device_count > 0,
        ensures
            res.0.wf(),
            res.0.device_count() == device_count,
            res.0.known_flags() == Seq::<Seq<u32>>::empty(),
            res.0.answers() == Map::<(int, int), bool>::empty(),
            res.1 == SearchStep::Query(SearchQuery::QueueFamilies { device: 0 }),
            res.0.awaiting() == res.1,
    {
        let step = SearchStep::Query(SearchQuery::QueueFamilies { device: 0 });
        let search = DeviceSearch {
            device_count,
            families: Vec::new(),
            device: 0,
            family: 0,
            awaiting: step,
            known: Ghost(Seq::empty()),
            answers: Ghost(Map::empty()),
        };
        (search, step)
    }

    /// Takes the queue flags of the families of the device that the last
    /// step asked about, and takes the next step.
    pub fn queue_families(&mut self, flags: Vec<u32>) -> (step: SearchStep)
        requires
            old(self).wf(),
            old(self).awaits_queue_families(),
            flags.len() <= u32::MAX,
        ensures
            final(self).wf(),
            final(self).device_count() == old(self).device_count(),
            final(self).known_flags() == old(self).known_flags().push(flags@),
            final(self).answers() == old(self).answers(),
            final(self).awaiting() == step,
            step_fits(final(self).known_flags(), final(self).answers(), final(self).device_count() as int, step),
            answers_only_graphics(final(self).known_flags(), final(self).answers()),
            !(step is Selected),
            support_query(step) matches Some((device, family)) ==> {
                &&& device == old(self).known_flags().len()
                &&& family < flags@.len()
                &&& flags@[family as int] % 2 == 1
                &&& forall|j: int| 0 <= j < family ==> #[trigger] flags@[j] % 2 == 0
            },
            support_query(step) is None ==> forall|j: int| 0 <= j < flags@.len() ==> #[trigger] flags@[j] % 2 == 0,
    {
        let device: usize = self.device;
        let ghost old_known = self.known@;
        self.families = flags;
        self.known = Ghost(self.known@.push(self.families@));
        proof {
            let known = self.known@;
            let answers = self.answers@;
            assert(all_rejected_before(known, answers, device as int, 0)) by {
                assert forall|d2: int, i2: int|
                    0 <= d2 < known.len() && 0 <= i2 < known[d2].len() && (d2 < device || (d2 == device && i2 < 0))
                    implies #[trigger] pair_rejected(known, answers, d2, i2) by {
                    assert(known[d2] == old_known[d2]);
                    assert(pair_rejected(old_known, answers, d2, i2));
                }
            }
            assert forall|k: (int, int)| #[trigger] answers.contains_key(k)
                implies 0 <= k.0 < known.len() && 0 <= k.1 < known[k.0].len() && has_graphics(known[k.0][k.1]) by {
                assert(known[k.0] == old_known[k.0]);
            }
            assert forall|d: int| 0 <= d < known.len() implies #[trigger] known[d].len() <= u32::MAX by {
                if d < old_known.len() {
                    assert(known[d] == old_known[d]);
                }
            }
        }
        let step: SearchStep = self.scan(device, 0);
        proof {
            let known = self.known@;
            let answers = self.answers@;
            assert(known[device as int] == flags@);
            assert(answers_before(answers, device as int, 0));
            assert forall|j: int| 0 <= j < flags@.len() && pair_rejected(known, answers, device as int, j)
                implies #[trigger] flags@[j] % 2 == 0 by {
                assert(!answers.contains_key((device as int, j)));
                lemma_has_graphics_is_bit_zero(flags@[j]);
            }
            match step {
                SearchStep::Query(SearchQuery::SurfaceSupport { device: d, family: f }) => {
                    lemma_has_graphics_is_bit_zero(flags@[f as int]);
                    assert forall|j: int| 0 <= j < f implies #[trigger] flags@[j] % 2 == 0 by {
                        assert(pair_rejected(known, answers, device as int, j));
                    }
                },
                SearchStep::Query(SearchQuery::QueueFamilies { .. }) => {
                    assert forall|j: int| 0 <= j < flags@.len() implies #[trigger] flags@[j] % 2 == 0 by {
                        assert(pair_rejected(known, answers, device as int, j));
                    }
                },
                SearchStep::NoSuitableDevice => {
                    assert forall|j: int| 0 <= j < flags@.len() implies #[trigger] flags@[j] % 2 == 0 by {
                        assert(pair_rejected(known, answers, device as int, j));
                    }
                },
                SearchStep::Selected { .. } => {},
            }
        }
        step
    }

    /// Takes the driver's answer on whether the family that the last step
    /// asked about can present to the surface, and takes the next step.
    pub fn surface_support(&mut self, supported: bool) -> (step: SearchStep)
        requires
            old(self).wf(),
            old(self).awaits_surface_support(),
        ensures
            final(self).wf(),
            final(self).device_count() == old(self).device_count(),
            final(self).known_flags() == old(self).known_flags(),
            old(self).awaiting() matches SearchStep::Query(SearchQuery::SurfaceSupport { device, family })
                && final(self).answers() == old(self).answers().insert((device as int, family as int), supported),
            final(self).awaiting() == step,
            step_fits(final(self).known_flags(), final(self).answers(), final(self).device_count() as int, step),
            answers_only_graphics(final(self).known_flags(), final(self).answers()),
            support_query(old(self).awaiting()) matches Some((device, family)) ==> {
                let flags = old(self).known_flags()[device as int];
                &&& supported ==> step == (SearchStep::Selected { device, family })
                &&& !supported ==> !(step is Selected)
                &&& !supported ==> (support_query(step) matches Some((d2, f2)) ==> {
                    &&& d2 == device
                    &&& family < f2 < flags.len()
                    &&& flags[f2 as int] % 2 == 1
                    &&& forall|j: int| family < j < f2 ==> #[trigger] flags[j] % 2 == 0
                })
                &&& (!supported && support_query(step) is None)
                    ==> forall|j: int| family < j < flags.len() ==> #[trigger] flags[j] % 2 == 0
            },
    {
        let device: usize = self.device;
        let family: usize = self.family;
        let ghost old_answers = self.answers@;
        let ghost key = (device as int, family as int);
        self.answers = Ghost(self.answers@.insert(key, supported));
        proof {
            let known = self.known@;
            let answers = self.answers@;
            assert forall|d2: int, i2: int|
                0 <= d2 < known.len() && 0 <= i2 < known[d2].len() && (d2 < device || (d2 == device && i2 < family))
                implies #[trigger] pair_rejected(known, answers, d2, i2) by {
                assert(pair_rejected(known, old_answers, d2, i2));
                assert((d2, i2) != key);
            }
            assert forall|k: (int, int)| #[trigger] answers.contains_key(k)
                implies 0 <= k.0 < known.len() && 0 <= k.1 < known[k.0].len() && has_graphics(known[k.0][k.1]) by {
                if k != key {
                    assert(old_answers.contains_key(k));
                }
            }
        }
        if supported {
            let step = SearchStep::Selected { device, family: family as u32 };
            self.awaiting = step;
            proof {
                let answers = self.answers@;
                assert forall|k: (int, int)| #[trigger] answers.contains_key(k)
                    implies (k.0 < device || (k.0 == device && k.1 < family + 1)) by {
                    if k != key {
                        assert(old_answers.contains_key(k));
                    }
                }
            }
            step
        } else {
            proof {
                let known = self.known@;
                let answers = self.answers@;
                assert(pair_rejected(known, answers, device as int, family as int));
                assert forall|d2: int, i2: int|
                    0 <= d2 < known.len() && 0 <= i2 < known[d2].len() && (d2 < device || (d2 == device && i2 < family + 1))
                    implies #[trigger] pair_rejected(known, answers, d2, i2) by {
                    if !(d2 == device && i2 == family) {
                        assert(d2 < device || (d2 == device && i2 < family));
                    }
                }
                assert forall|k: (int, int)| #[trigger] answers.contains_key(k)
                    implies (k.0 < device || (k.0 == device && k.1 < family + 1)) by {
                    if k != key {
                        assert(old_answers.contains_key(k));
                    }
                }
            }
            let step: SearchStep = self.scan(device, family + 1);
            proof {
                let known = self.known@;
                let answers = self.answers@;
                let flags = known[device as int];
                assert forall|j: int| family < j < flags.len() && pair_rejected(known, answers, device as int, j)
                    implies #[trigger] flags[j] % 2 == 0 by {
                    if answers.contains_key((device as int, j)) {
                        assert(old_answers.contains_key((device as int, j)));
                    }
                    lemma_has_graphics_is_bit_zero(flags[j]);
                }
                match step {
                    SearchStep::Query(SearchQuery::SurfaceSupport { device: d, family: f2 }) => {
                        lemma_has_graphics_is_bit_zero(flags[f2 as int]);
                        if f2 as int <= family as int {
                            if (f2 as int) < family as int {
                                assert(pair_rejected(known, old_answers, device as int, f2 as int));
                                if old_answers.contains_key((device as int, f2 as int)) {
                                    assert(answers.contains_key((device as int, f2 as int)));
                                }
                            } else {
                                assert(answers.contains_key((device as int, family as int)));
                            }
                            assert(false);
                        }
                        assert forall|j: int| family < j < f2 implies #[trigger] flags[j] % 2 == 0 by {
                            assert(pair_rejected(known, answers, device as int, j));
                        }
                    },
                    SearchStep::Query(SearchQuery::QueueFamilies { .. }) => {
                        assert forall|j: int| family < j < flags.len() implies #[trigger] flags[j] % 2 == 0 by {
                            assert(pair_rejected(known, answers, device as int, j));
                        }
                    },
                    SearchStep::NoSuitableDevice => {
                        assert forall|j: int| family < j < flags.len() implies #[trigger] flags[j] % 2 == 0 by {
                            assert(pair_rejected(known, answers, device as int, j));
                        }
                    },
                    SearchStep::Selected { .. } => {},
                }
            }
            step
        }
    }

    /// Looks through the families of `device` from `from` on for one that
    /// supports graphics, and asks about its surface support; with none
    /// left, moves on to the next device or ends the search.
    fn scan(&mut self, device: usize, from: usize) -> (step: SearchStep)
        requires
            old(self).device_count > 0,
            device < old(self).device_count,
            old(self).known@.len() == device + 1,
            old(self).families@ == old(self).known@[device as int],
            from <= old(self).families@.len(),
            all_rejected_before(old(self).known@, old(self).answers@, device as int, from as int),
            answers_before(old(self).answers@, device as int, from as int),
            answers_only_graphics(old(self).known@, old(self).answers@),
            forall|d: int| 0 <= d < old(self).known@.len() ==> #[trigger] old(self).known@[d].len() <= u32::MAX,
        ensures
            final(self).wf(),
            final(self).device_count == old(self).device_count,
            final(self).known@ == old(self).known@,
            final(self).answers@ == old(self).answers@,
            final(self).awaiting == step,
    {
        let ghost known = self.known@;
        let ghost answers = self.answers@;
        assert(known[device as int].len() <= u32::MAX);
        let count: usize = self.device_count;
        let mut i: usize = from;
        while i < self.families.len()
            invariant
                self.device_count == count,
                count == old(self).device_count,
                known == old(self).known@,
                answers == old(self).answers@,
                device < count,
                known[device as int].len() <= u32::MAX,
                answers_only_graphics(known, answers),
                forall|d: int| 0 <= d < known.len() ==> #[trigger] known[d].len() <= u32::MAX,
                from <= i <= self.families@.len(),
                self.families@ == known[device as int],
                known == self.known@,
                answers == self.answers@,
                device + 1 == known.len(),
                all_rejected_before(known, answers, device as int, i as int),
                answers_before(answers, device as int, from as int),
            decreases self.families@.len() - i,
        {
            if self.families[i] & QUEUE_GRAPHICS_BIT == QUEUE_GRAPHICS_BIT {
                let step = SearchStep::Query(SearchQuery::SurfaceSupport { device, family: i as u32 });
                self.device = device;
                self.family = i;
                self.awaiting = step;
                assert forall|k: (int, int)| #[trigger] answers.contains_key(k)
                    implies (k.0 < device || (k.0 == device && k.1 < i)) by {
                }
                return step;
            }
            proof {
                assert(pair_rejected(known, answers, device as int, i as int));
                assert forall|d2: int, i2: int|
                    0 <= d2 < known.len() && 0 <= i2 < known[d2].len() && (d2 < device || (d2 == device && i2 < i + 1))
                    implies #[trigger] pair_rejected(known, answers, d2, i2) by {
                    if !(d2 == device && i2 == i) {
                        assert(d2 < device || (d2 == device && i2 < i));
                    }
                }
            }
            i += 1;
        }
        proof {
            assert forall|d2: int, i2: int|
                0 <= d2 < known.len() && 0 <= i2 < known[d2].len() && (d2 < device + 1 || (d2 == device + 1 && i2 < 0))
                implies #[trigger] pair_rejected(known, answers, d2, i2) by {
                assert(d2 < device || (d2 == device && i2 < i));
            }
            assert forall|k: (int, int)| #[trigger] answers.contains_key(k)
                implies (k.0 < device + 1 || (k.0 == device + 1 && k.1 < 0)) by {
            }
        }
        if device + 1 < self.device_count {
            let step = SearchStep::Query(SearchQuery::QueueFamilies { device: device + 1 });
            self.device = device + 1;
            self.awaiting = step;
            step
        } else {
            let step = SearchStep::NoSuitableDevice;
            self.awaiting = step;
            step
        }
    }
}

/// The device extension that presenting to a window needs.
pub const SWAPCHAIN_EXTENSION: &'static str = "VK_KHR_swapchain";

/// What the renderer puts into its `vk::DeviceCreateInfo`: one queue of
/// the chosen family at priority 1.0, the swapchain extension, and the
/// features that dynamic rendering, the second synchronization API and the
/// shaders' draw parameters need.
#[derive(Clone, Debug, PartialEq, Eq)]
pub struct DeviceSettings {
    pub queue_family_index: u32,
    pub queue_count: u32,
    pub enabled_extensions: Vec<&'static str>,
    pub dynamic_rendering: bool,
    pub synchronization2: bool,
    pub shader_draw_parameters: bool,
}

/// The logical device on the queue family that the search selected.
pub fn device_settings(queue_family_index: u32) -> (settings: DeviceSettings)
    ensures
        settings.queue_family_index == queue_family_index,
        settings.queue_count == 1,
        settings.enabled_extensions@.len() == 1,
        settings.enabled_extensions@[0]@ == SWAPCHAIN_EXTENSION@,
        settings.dynamic_rendering,
        settings.synchronization2,
        settings.shader_draw_parameters,
{
    let mut enabled_extensions: Vec<&'static str> = Vec::new();
    enabled_extensions.push(SWAPCHAIN_EXTENSION);
    DeviceSettings {
        queue_family_index,
        queue_count: 1,
        enabled_extensions,
        dynamic_rendering: true,
        synchronization2: true,
        shader_draw_parameters: true,
    }
}

} // verus!
