//! Listing the displays with their numbers.
//!
//! The enumeration is asked place by place, from zero, until it has no
//! device. Each device that is to be shown has its mode read, for its
//! resolution and position; one without a mode is shown without them.

use vstd::prelude::*;
use crate::device::{copy_name, DeviceView, DisplayDevice};
use crate::mode::{ModeView, Placement};
use crate::system::{Query, QueryView, Reply, ReplyView};

verus! {

/// The last place of the enumeration whose display has a number: numbers
/// are one more than places, and no number is above `u32::MAX`.
pub const LAST_PLACE: u32 = 0xFFFF_FFFE;

/// One line of the listing: a display that is shown.
#[derive(Clone, Debug, PartialEq, Eq)]
pub struct ListEntry {
    /// The number of the display, counted from one: the number by which a
    /// position request names it.
    pub number: u32,
    /// The device.
    pub device: DisplayDevice,
    /// Its resolution and position, or `None` where it has no current mode.
    pub placement: Option<Placement>,
}

/// What a [`ListEntry`] holds, as mathematical values.
pub ghost struct EntryView {
    pub number: u32,
    pub device: DeviceView,
    pub placement: Option<Placement>,
}

impl View for ListEntry {
    type V = EntryView;

    open spec fn view(&self) -> EntryView {
        EntryView { number: self.number, device: self.device@, placement: self.placement }
    }
}

/// What the listing is doing.
#[derive(Debug)]
enum Stage {
    Enumerating,
    Describing { device: DisplayDevice },
    Finished,
}

/// What the listing is doing.
pub ghost enum StageView {
    /// It asks the enumeration for the device at the place it has come to.
    Enumerating,
    /// It reads the mode of a device that is to be shown.
    Describing { device: DeviceView },
    /// It has ended.
    Finished,
}

/// The resolution and position of a mode that may be missing.
pub open spec fn placement_of(mode: Option<ModeView>) -> Option<Placement> {
    match mode {
        Some(mode) => Some(mode.placement()),
        None => None,
    }
}

/// The state of a listing, as mathematical values.
pub ghost struct ListingView {
    /// Whether devices that are not part of the desktop are shown too.
    pub show_all: bool,
    /// The place of the enumeration that the listing has come to.
    pub place: u32,
    /// What it is doing there.
    pub stage: StageView,
}

impl ListingView {
    /// The state before anything was asked.
    pub open spec fn start(show_all: bool) -> ListingView {
        ListingView { show_all, place: 0, stage: StageView::Enumerating }
    }

    /// Whether `device` is shown: every device where all are asked for, else
    /// those that are part of the desktop.
    pub open spec fn shows(self, device: DeviceView) -> bool {
        self.show_all || device.flags.active
    }

    /// The place has a number, and a device whose mode is read is one that
    /// is shown.
    pub open spec fn wf(self) -> bool {
        &&& self.place <= LAST_PLACE
        &&& self.stage matches StageView::Describing { device } ==> self.shows(device)
    }

    /// The question that the listing waits to have answered.
    pub open spec fn pending(self) -> Option<QueryView> {
        match self.stage {
            StageView::Enumerating => Some(QueryView::enumerate(self.place)),
            StageView::Describing { device } => Some(QueryView::read_mode(device.name)),
            StageView::Finished => None,
        }
    }

    /// The state with the device at this place done: at the next place, or
    /// finished where no further place has a number.
    pub open spec fn moved_on(self) -> ListingView {
        if self.place < LAST_PLACE {
            ListingView { place: (self.place + 1) as u32, stage: StageView::Enumerating, ..self }
        } else {
            ListingView { stage: StageView::Finished, ..self }
        }
    }

    /// The state after `reply`. A reply that does not answer the pending
    /// question changes nothing.
    pub open spec fn after(self, reply: ReplyView) -> ListingView {
        match (self.stage, reply) {
            (StageView::Enumerating, ReplyView::Device(None)) => ListingView {
                stage: StageView::Finished,
                ..self
            },
            (StageView::Enumerating, ReplyView::Device(Some(device))) => if self.shows(device) {
                ListingView { stage: StageView::Describing { device }, ..self }
            } else {
                self.moved_on()
            },
            (StageView::Describing { .. }, ReplyView::Mode(_)) => self.moved_on(),
            _ => self,
        }
    }

    /// The entry that `reply` completes, if it completes one.
    pub open spec fn entry(self, reply: ReplyView) -> Option<EntryView> {
        match (self.stage, reply) {
            (StageView::Describing { device }, ReplyView::Mode(mode)) => Some(
                EntryView {
                    number: (self.place + 1) as u32,
                    device,
                    placement: placement_of(mode),
                },
            ),
            _ => None,
        }
    }
}

/// A listing of the displays in progress.
#[derive(Debug)]
pub struct Listing {
    show_all: bool,
    place: u32,
    stage: Stage,
}

impl Stage {
    spec fn view(self) -> StageView {
        match self {
            Stage::Enumerating => StageView::Enumerating,
            Stage::Describing { device } => StageView::Describing { device: device@ },
            Stage::Finished => StageView::Finished,
        }
    }
}

impl View for Listing {
    type V = ListingView;

    closed spec fn view(&self) -> ListingView {
        ListingView { show_all: self.show_all, place: self.place, stage: self.stage.view() }
    }
}

impl Listing {
    #[verifier::type_invariant]
    spec fn in_order(self) -> bool {
        self@.wf()
    }

    /// A listing with nothing asked yet: of every device that is enumerated
    /// where `show_all` is set, else of those that are part of the desktop.
    pub fn new(show_all: bool) -> (listing: Listing)
        ensures
            listing@ == ListingView::start(show_all),
    {
        Listing { show_all, place: 0, stage: Stage::Enumerating }
    }

    /// Whether the listing has ended.
    pub fn is_finished(&self) -> (finished: bool)
        ensures
            finished == (self@.stage is Finished),
    {
        match &self.stage {
            Stage::Finished => true,
            _ => false,
        }
    }

    /// The question to put to the display system next, or `None` where the
    /// listing has ended.
    pub fn pending(&self) -> (query: Option<Query>)
        ensures
            self@.wf(),
            query is None <==> self@.pending() is None,
            query matches Some(q) ==> self@.pending() == Some(q@),
    {
        proof {
            use_type_invariant(self);
        }
        match &self.stage {
            Stage::Enumerating => Some(Query::enumerate(self.place)),
            Stage::Describing { device } => Some(Query::read_mode(copy_name(&device.name))),
            Stage::Finished => None,
        }
    }

    /// Takes the answer of the display system to the pending question. The
    /// result is the listing in its next state and, where the answer
    /// completes the entry of a display, that entry.
    pub fn step(self, reply: Reply) -> (next: (Listing, Option<ListEntry>))
        ensures
            next.0@ == self@.after(reply@),
            next.1 is None <==> self@.entry(reply@) is None,
            next.1 matches Some(entry) ==> self@.entry(reply@) == Some(entry@),
            next.1 matches Some(entry) ==> self@.shows(entry@.device),
            next.0@.wf(),
    {
        proof {
            use_type_invariant(&self);
        }
        let show_all: bool = self.show_all;
        let place: u32 = self.place;
        let next: (Listing, Option<ListEntry>) = match (self.stage, reply) {
            (Stage::Enumerating, Reply::Device(None)) => (
                Listing { show_all, place, stage: Stage::Finished },
                None,
            ),
            (Stage::Enumerating, Reply::Device(Some(device))) => {
                if show_all || device.is_active() {
                    (Listing { show_all, place, stage: Stage::Describing { device } }, None)
                } else {
                    (Listing::following(show_all, place), None)
                }
            },
            (Stage::Describing { device }, Reply::Mode(mode)) => {
                let placement: Option<Placement> = match mode {
                    Some(mode) => Some(mode.placement()),
                    None => None,
                };
                (
                    Listing::following(show_all, place),
                    Some(ListEntry { number: place + 1, device, placement }),
                )
            },
            (stage, _) => (Listing { show_all, place, stage }, None),
        };
        next
    }

    /// The listing with the device at `place` done.
    fn following(show_all: bool, place: u32) -> (listing: Listing)
        requires
            place <= LAST_PLACE,
        ensures
            listing@ == (ListingView { show_all, place, stage: StageView::Enumerating }).moved_on(),
    {
        if place < LAST_PLACE {
            Listing { show_all, place: place + 1, stage: Stage::Enumerating }
        } else {
            Listing { show_all, place, stage: Stage::Finished }
        }
    }
}

/// One device of a display system, with its current mode if it has one.
pub ghost struct Attached {
    pub device: DeviceView,
    pub mode: Option<ModeView>,
}

impl ListingView {
    /// The state after `replies`, taken one after the other.
    pub open spec fn run(self, replies: Seq<ReplyView>) -> ListingView
        decreases replies.len(),
    {
        if replies.len() == 0 {
            self
        } else {
            self.run(replies.drop_last()).after(replies.last())
        }
    }

    /// The entries that `replies` complete, in the order in which they are
    /// completed.
    pub open spec fn entries(self, replies: Seq<ReplyView>) -> Seq<EntryView>
        decreases replies.len(),
    {
        if replies.len() == 0 {
            Seq::empty()
        } else {
            let before = self.entries(replies.drop_last());
            match self.run(replies.drop_last()).entry(replies.last()) {
                Some(entry) => before.push(entry),
                None => before,
            }
        }
    }
}

/// The entry of the device at `place` of `devices`.
pub open spec fn entry_of(devices: Seq<Attached>, place: int) -> EntryView {
    EntryView {
        number: (place + 1) as u32,
        device: devices[place].device,
        placement: placement_of(devices[place].mode),
    }
}

/// The listing of a display system that has `devices`, in this order: the
/// entries of those that are shown, each numbered by its place among all.
pub open spec fn listed(devices: Seq<Attached>, show_all: bool) -> Seq<EntryView>
    decreases devices.len(),
{
    if devices.len() == 0 {
        Seq::empty()
    } else {
        let before = listed(devices.drop_last(), show_all);
        if show_all || devices.last().device.flags.active {
            before.push(entry_of(devices, devices.len() - 1))
        } else {
            before
        }
    }
}

/// What a display system that has `devices` answers while they are
/// enumerated: each device, followed by its mode where it is shown and so has
/// its mode asked for.
pub open spec fn answers_for(devices: Seq<Attached>, show_all: bool) -> Seq<ReplyView>
    decreases devices.len(),
{
    if devices.len() == 0 {
        Seq::empty()
    } else {
        let before = answers_for(devices.drop_last(), show_all);
        let found = ReplyView::Device(Some(devices.last().device));
        if show_all || devices.last().device.flags.active {
            before.push(found).push(ReplyView::Mode(devices.last().mode))
        } else {
            before.push(found)
        }
    }
}

/// What a display system that has `devices` and no others answers to a
/// whole listing: as above, and at the end that there is no further device.
pub open spec fn all_answers_for(devices: Seq<Attached>, show_all: bool) -> Seq<ReplyView> {
    answers_for(devices, show_all).push(ReplyView::Device(None))
}

/// One more reply takes one more step and adds the entry that it completes.
proof fn lemma_one_more(state: ListingView, replies: Seq<ReplyView>, reply: ReplyView)
    ensures
        state.run(replies.push(reply)) == state.run(replies).after(reply),
        state.entries(replies.push(reply)) == match state.run(replies).entry(reply) {
            Some(entry) => state.entries(replies).push(entry),
            None => state.entries(replies),
        },
{
    assert(replies.push(reply).drop_last() =~= replies);
}

/// After the answers for `devices`, the listing has their entries and
/// stands at the place after the last of them.
proof fn lemma_enumerated(devices: Seq<Attached>, show_all: bool)
    requires
        devices.len() <= u32::MAX,
    ensures
        ListingView::start(show_all).entries(answers_for(devices, show_all)) == listed(
            devices,
            show_all,
        ),
        ListingView::start(show_all).run(answers_for(devices, show_all)) == if devices.len()
            <= LAST_PLACE {
            ListingView { show_all, place: devices.len() as u32, stage: StageView::Enumerating }
        } else {
            ListingView { show_all, place: LAST_PLACE, stage: StageView::Finished }
        },
    decreases devices.len(),
{
    let start = ListingView::start(show_all);
    if devices.len() > 0 {
        let earlier = devices.drop_last();
        let before = answers_for(earlier, show_all);
        let found = ReplyView::Device(Some(devices.last().device));
        lemma_enumerated(earlier, show_all);
        lemma_one_more(start, before, found);
        if show_all || devices.last().device.flags.active {
            lemma_one_more(start, before.push(found), ReplyView::Mode(devices.last().mode));
        }
    }
}

/// Whatever devices a display system has, a listing that is driven with its
/// answers ends, and what it has listed by then are the devices that are
/// shown, in the order of the enumeration, each under its number.
pub proof fn listing_lists_what_is_shown(devices: Seq<Attached>, show_all: bool)
    requires
        devices.len() <= u32::MAX,
    ensures
        ListingView::start(show_all).entries(all_answers_for(devices, show_all)) == listed(
            devices,
            show_all,
        ),
        ListingView::start(show_all).run(all_answers_for(devices, show_all)).stage is Finished,
{
    lemma_enumerated(devices, show_all);
    lemma_one_more(
        ListingView::start(show_all),
        answers_for(devices, show_all),
        ReplyView::Device(None),
    );
}

/// Every entry of a listing is the entry of a device that is shown, and
/// every device that is shown has its entry: it stands at as many places from
/// the start as devices before it are shown.
pub proof fn listed_are_those_shown(devices: Seq<Attached>, show_all: bool)
    ensures
        listed(devices, show_all).len() <= devices.len(),
        forall|k: int|
            0 <= k < listed(devices, show_all).len() ==> show_all || (#[trigger] listed(
                devices,
                show_all,
            )[k]).device.flags.active,
        forall|k: int|
            0 <= k < listed(devices, show_all).len() ==> exists|place: int|
                0 <= place < devices.len() && (#[trigger] listed(devices, show_all)[k])
                    == entry_of(devices, place),
        forall|place: int|
            0 <= place < devices.len() && (show_all || devices[place].device.flags.active)
                ==> exists|k: int|
                0 <= k < listed(devices, show_all).len() && #[trigger] listed(devices, show_all)[k]
                    == entry_of(devices, place),
    decreases devices.len(),
{
    if devices.len() > 0 {
        let earlier = devices.drop_last();
        let before = listed(earlier, show_all);
        let all = listed(devices, show_all);
        let n = devices.len() as int;
        listed_are_those_shown(earlier, show_all);
        assert forall|place: int| 0 <= place < n - 1 implies entry_of(earlier, place) == entry_of(
            devices,
            place,
        ) by {}
        assert forall|k: int| 0 <= k < all.len() implies exists|place: int|
            0 <= place < devices.len() && (#[trigger] all[k]) == entry_of(devices, place) by {
            if k < before.len() {
                let place = choose|place: int|
                    0 <= place < earlier.len() && before[k] == entry_of(earlier, place);
                assert(all[k] == entry_of(devices, place));
            } else {
                assert(all[k] == entry_of(devices, n - 1));
            }
        }
        assert forall|place: int|
            0 <= place < devices.len() && (show_all
                || devices[place].device.flags.active) implies exists|k: int|
            0 <= k < all.len() && #[trigger] all[k] == entry_of(devices, place) by {
            if place < n - 1 {
                assert(earlier[place] == devices[place]);
                let k = choose|k: int|
                    0 <= k < before.len() && #[trigger] before[k] == entry_of(earlier, place);
                assert(all[k] == entry_of(devices, place));
            } else {
                assert(all[all.len() - 1] == entry_of(devices, place));
            }
        }
    }
}

/// Where all devices are asked for, the listing has one entry for each
/// device that the enumeration gives, part of the desktop or not, in the same
/// order.
pub proof fn full_listing_has_every_device(devices: Seq<Attached>)
    ensures
        listed(devices, true).len() == devices.len(),
        forall|place: int|
            0 <= place < devices.len() ==> #[trigger] listed(devices, true)[place] == entry_of(
                devices,
                place,
            ),
    decreases devices.len(),
{
    if devices.len() > 0 {
        full_listing_has_every_device(devices.drop_last());
        assert forall|place: int| 0 <= place < devices.len() implies #[trigger] listed(
            devices,
            true,
        )[place] == entry_of(devices, place) by {
            if place < devices.len() - 1 {
                assert(listed(devices.drop_last(), true)[place] == entry_of(
                    devices.drop_last(),
                    place,
                ));
            }
        }
    }
}

/// Where not all devices are asked for, no device that is not part of the
/// desktop is listed.
pub proof fn default_listing_has_active_devices_only(devices: Seq<Attached>, k: int)
    requires
        0 <= k < listed(devices, false).len(),
    ensures
        listed(devices, false)[k].device.flags.active,
{
    listed_are_those_shown(devices, false);
}

} // verus!
