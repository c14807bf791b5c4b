//! The capture of local input at an edge of the screen.

use crate::capture_guard::PortalProblem;
use crate::held::{held_after, HeldCodes};
use crate::protocol::{Edge, F64Bits, InputEvent, MouseButton};
use vstd::prelude::*;

verus! {

/// The key code of Pause.
pub const KEY_PAUSE: u16 = 119;

/// The key code of Escape.
pub const KEY_ESC: u16 = 1;

/// Whether one of the two control keys is held.
pub open spec fn control_is_held(held: Set<u16>) -> bool {
    held.contains(29) || held.contains(97)
}

/// Whether one of the two alt keys is held.
pub open spec fn alt_is_held(held: Set<u16>) -> bool {
    held.contains(56) || held.contains(100)
}

/// Whether a key completes the chord that gives the input back: Pause or
/// Escape going down while a control and an alt key are held.
pub open spec fn is_emergency(held: Set<u16>, evdev_code: u16, down: bool) -> bool {
    &&& down
    &&& evdev_code == KEY_PAUSE || evdev_code == KEY_ESC
    &&& control_is_held(held_after(held, evdev_code, down))
    &&& alt_is_held(held_after(held, evdev_code, down))
}

/// The keys that the user holds while the input is captured.
#[derive(Debug)]
pub struct CaptureInputState {
    pressed_keys: HeldCodes,
}

impl View for CaptureInputState {
    type V = Set<u16>;

    closed spec fn view(&self) -> Set<u16> {
        self.pressed_keys@
    }
}

impl Default for CaptureInputState {
    /// No key is held.
    fn default() -> (state: Self)
        ensures
            state@ == Set::<u16>::empty(),
    {
        CaptureInputState { pressed_keys: HeldCodes::default() }
    }
}

impl CaptureInputState {
    /// Forgets what is held.
    pub fn clear(&mut self)
        ensures
            final(self)@ == Set::<u16>::empty(),
    {
        self.pressed_keys.clear();
    }

    /// Notes a key, and says whether it completes the chord that gives the input back.
    pub fn update_key(&mut self, evdev_code: u16, down: bool) -> (emergency: bool)
        ensures
            final(self)@ == held_after(old(self)@, evdev_code, down),
            emergency == is_emergency(old(self)@, evdev_code, down),
    {
        self.pressed_keys.update(evdev_code, down);
        let control = self.pressed_keys.is_held(29) || self.pressed_keys.is_held(97);
        let alt = self.pressed_keys.is_held(56) || self.pressed_keys.is_held(100);
        down && (evdev_code == KEY_PAUSE || evdev_code == KEY_ESC) && control && alt
    }
}

/// The mouse button that a Linux button code stands for.
pub open spec fn button_of(code: u32) -> Option<MouseButton> {
    match code {
        0x110 => Some(MouseButton::Left),
        0x111 => Some(MouseButton::Right),
        0x112 => Some(MouseButton::Middle),
        0x115 => Some(MouseButton::Forward),
        0x116 => Some(MouseButton::Back),
        _ => None,
    }
}

/// The mouse button that a Linux button code stands for.
pub fn mouse_button(button: u32) -> (found: Option<MouseButton>)
    ensures
        found == button_of(button),
{
    match button {
        0x110 => Some(MouseButton::Left),
        0x111 => Some(MouseButton::Right),
        0x112 => Some(MouseButton::Middle),
        0x115 => Some(MouseButton::Forward),
        0x116 => Some(MouseButton::Back),
        _ => None,
    }
}

/// What the compositor reports of the captured devices.
#[derive(Clone, Copy, Debug, PartialEq, Eq, Structural)]
pub enum EisEvent {
    SeatAdded,
    PointerMotion { dx: F64Bits, dy: F64Bits },
    Button { button: u32, pressed: bool },
    /// A turn of the wheel, in notches: up and right are positive.
    Scroll { x: F64Bits, y: F64Bits },
    KeyboardKey { key: u32, pressed: bool },
    Stopped,
    Other,
}

/// What a report of the captured devices calls for.
#[derive(Clone, Copy, Debug, PartialEq, Eq, Structural)]
pub enum EisAction {
    Nothing,
    /// Ask for the pointer, the keyboard, the wheel and the buttons of a seat.
    BindSeat,
    Input(InputEvent),
    EmergencyRelease,
}

/// What a report calls for, given the keys that are held.
pub open spec fn eis_action(held: Set<u16>, event: EisEvent) -> EisAction {
    match event {
        EisEvent::SeatAdded => EisAction::BindSeat,
        EisEvent::PointerMotion { dx, dy } => EisAction::Input(
            InputEvent::PointerMotion { dx, dy },
        ),
        EisEvent::Button { button, pressed } => match button_of(button) {
            Some(button) => EisAction::Input(
                InputEvent::PointerButton { button, down: pressed },
            ),
            None => EisAction::Nothing,
        },
        EisEvent::Scroll { x, y } => EisAction::Input(InputEvent::PointerWheel { x, y }),
        EisEvent::KeyboardKey { key, pressed } => if key > u16::MAX {
            EisAction::Nothing
        } else if is_emergency(held, key as u16, pressed) {
            EisAction::EmergencyRelease
        } else {
            EisAction::Input(InputEvent::Key { evdev_code: key as u16, down: pressed })
        },
        EisEvent::Stopped => EisAction::Input(InputEvent::AllKeysUp),
        EisEvent::Other => EisAction::Nothing,
    }
}

/// The keys that are held after a report.
pub open spec fn held_after_eis(held: Set<u16>, event: EisEvent) -> Set<u16> {
    match event {
        EisEvent::KeyboardKey { key, pressed } => if key > u16::MAX {
            held
        } else if is_emergency(held, key as u16, pressed) {
            Set::empty()
        } else {
            held_after(held, key as u16, pressed)
        },
        EisEvent::Stopped => Set::empty(),
        _ => held,
    }
}

/// Takes a report of the captured devices.
pub fn handle_eis_event(state: &mut CaptureInputState, event: EisEvent) -> (action: EisAction)
    ensures
        action == eis_action(old(state)@, event),
        final(state)@ == held_after_eis(old(state)@, event),
{
    match event {
        EisEvent::SeatAdded => EisAction::BindSeat,
        EisEvent::PointerMotion { dx, dy } => EisAction::Input(
            InputEvent::PointerMotion { dx, dy },
        ),
        EisEvent::Button { button, pressed } => match mouse_button(button) {
            Some(button) => EisAction::Input(
                InputEvent::PointerButton { button, down: pressed },
            ),
            None => EisAction::Nothing,
        },
        EisEvent::Scroll { x, y } => EisAction::Input(InputEvent::PointerWheel { x, y }),
        EisEvent::KeyboardKey { key, pressed } => {
            if key > u16::MAX as u32 {
                return EisAction::Nothing;
            }
            let evdev_code: u16 = key as u16;
            if state.update_key(evdev_code, pressed) {
                state.clear();
                EisAction::EmergencyRelease
            } else {
                EisAction::Input(InputEvent::Key { evdev_code, down: pressed })
            }
        },
        EisEvent::Stopped => {
            state.clear();
            EisAction::Input(InputEvent::AllKeysUp)
        },
        EisEvent::Other => EisAction::Nothing,
    }
}

/// The chord gives the input back whichever control and alt key are held, and
/// it is not passed on.
pub proof fn law_chord_gives_the_input_back(held: Set<u16>, control: u16, alt: u16, key: u16)
    requires
        control == 29 || control == 97,
        alt == 56 || alt == 100,
        key == KEY_PAUSE || key == KEY_ESC,
        held.contains(control),
        held.contains(alt),
    ensures
        eis_action(held, EisEvent::KeyboardKey { key: key as u32, pressed: true })
            == EisAction::EmergencyRelease,
        held_after_eis(held, EisEvent::KeyboardKey { key: key as u32, pressed: true })
            == Set::<u16>::empty(),
{
}

/// A part of the desktop, as the portal describes it.
#[derive(Clone, Copy, Debug, PartialEq, Eq, Structural)]
pub struct Region {
    pub x: i32,
    pub y: i32,
    pub width: u32,
    pub height: u32,
}

/// A line that the pointer crosses to leave the screen.
#[derive(Clone, Copy, Debug, PartialEq, Eq, Structural)]
pub struct RequestedBarrier {
    pub id: u32,
    /// The two ends of the line.
    pub x1: i32,
    pub y1: i32,
    pub x2: i32,
    pub y2: i32,
    pub metadata: BarrierMetadata,
}

/// Which edge a barrier stands at, and of what part of the desktop.
#[derive(Clone, Copy, Debug, PartialEq, Eq, Structural)]
pub struct BarrierMetadata {
    pub edge: Edge,
    pub x: i32,
    pub y: i32,
    pub width: u32,
    pub height: u32,
}

/// A sum, or the limit that it would pass.
pub open spec fn saturated(sum: int) -> i32 {
    if sum > i32::MAX {
        i32::MAX
    } else if sum < i32::MIN {
        i32::MIN
    } else {
        sum as i32
    }
}

fn saturating_sum(a: i32, b: i32) -> (sum: i32)
    ensures
        sum == saturated(a + b),
{
    let wide: i64 = a as i64 + b as i64;
    if wide > i32::MAX as i64 {
        i32::MAX
    } else if wide < i32::MIN as i64 {
        i32::MIN
    } else {
        wide as i32
    }
}

/// A size as a signed number of the same bits.
pub open spec fn signed(size: u32) -> int {
    if size <= i32::MAX {
        size as int
    } else {
        size - 0x1_0000_0000
    }
}

/// A size as a signed number of the same bits.
pub fn as_signed(size: u32) -> (value: i32)
    ensures
        value == signed(size),
{
    if size <= i32::MAX as u32 {
        size as i32
    } else {
        let wide: i64 = size as i64 - 0x1_0000_0000;
        wide as i32
    }
}

/// The barrier at an edge of a region.
pub open spec fn barrier_at(region: Region, edge: Edge, id: u32) -> RequestedBarrier {
    let right = saturated(region.x + signed(region.width));
    let bottom = saturated(region.y + signed(region.height));
    let metadata = BarrierMetadata {
        edge,
        x: region.x,
        y: region.y,
        width: region.width,
        height: region.height,
    };
    let (x1, y1, x2, y2) = match edge {
        Edge::Left => (region.x, region.y, region.x, saturated(bottom - 1)),
        Edge::Right => (right, region.y, right, saturated(bottom - 1)),
        Edge::Top => (region.x, region.y, saturated(right - 1), region.y),
        Edge::Bottom => (region.x, bottom, saturated(right - 1), bottom),
    };
    RequestedBarrier { id, x1, y1, x2, y2, metadata }
}

fn place_barrier(region: Region, edge: Edge, id: u32) -> (barrier: RequestedBarrier)
    ensures
        barrier == barrier_at(region, edge, id),
{
    let right: i32 = saturating_sum(region.x, as_signed(region.width));
    let bottom: i32 = saturating_sum(region.y, as_signed(region.height));
    let metadata = BarrierMetadata {
        edge,
        x: region.x,
        y: region.y,
        width: region.width,
        height: region.height,
    };
    let (x1, y1, x2, y2) = match edge {
        Edge::Left => (region.x, region.y, region.x, saturating_sum(bottom, -1)),
        Edge::Right => (right, region.y, right, saturating_sum(bottom, -1)),
        Edge::Top => (region.x, region.y, saturating_sum(right, -1), region.y),
        Edge::Bottom => (region.x, bottom, saturating_sum(right, -1), bottom),
    };
    RequestedBarrier { id, x1, y1, x2, y2, metadata }
}

/// The barriers at an edge of every region, numbered from one.
pub open spec fn barriers_for(regions: Seq<Region>, edge: Edge) -> Seq<RequestedBarrier> {
    Seq::new(regions.len(), |i: int| barrier_at(regions[i], edge, (i + 1) as u32))
}

/// The barriers to ask for: one at the edge of every region.
pub fn request_barriers(regions: &Vec<Region>, edge: Edge) -> (barriers: Result<
    Vec<RequestedBarrier>,
    PortalProblem,
>)
    requires
        regions@.len() < u32::MAX,
    ensures
        barriers is Err <==> regions@.len() == 0,
        barriers matches Err(problem) ==> problem == PortalProblem::NoZones,
        barriers matches Ok(list) ==> list@ == barriers_for(regions@, edge),
{
    if regions.len() == 0 {
        return Err(PortalProblem::NoZones);
    }
    let mut barriers: Vec<RequestedBarrier> = Vec::new();
    for i in 0..regions.len()
        invariant
            regions@.len() < u32::MAX,
            barriers@ == barriers_for(regions@, edge).take(i as int),
    {
        barriers.push(place_barrier(regions[i], edge, (i + 1) as u32));
        assert(barriers@ == barriers_for(regions@, edge).take(i + 1));
    }
    assert(barriers@ == barriers_for(regions@, edge));
    Ok(barriers)
}

/// No two barriers share a number, and none has the number zero.
pub proof fn law_barrier_numbers_are_distinct(regions: Seq<Region>, edge: Edge, i: int, j: int)
    requires
        regions.len() < u32::MAX,
        0 <= i < j < regions.len(),
    ensures
        barriers_for(regions, edge)[i].id != barriers_for(regions, edge)[j].id,
        barriers_for(regions, edge)[i].id != 0,
{
}

/// The barriers that were not refused, each with its number, in their order.
pub open spec fn accepted_of(requested: Seq<RequestedBarrier>, failed: Seq<u32>) -> Seq<
    (u32, BarrierMetadata),
>
    decreases requested.len(),
{
    if requested.len() == 0 {
        Seq::empty()
    } else {
        let last = requested.last();
        let others = accepted_of(requested.drop_last(), failed);
        if failed.contains(last.id) {
            others
        } else {
            others.push((last.id, last.metadata))
        }
    }
}

fn is_listed(list: &Vec<u32>, id: u32) -> (listed: bool)
    ensures
        listed == list@.contains(id),
{
    for i in 0..list.len()
        invariant
            forall|j: int| 0 <= j < i ==> list@[j] != id,
    {
        if list[i] == id {
            return true;
        }
    }
    false
}

/// Keeps the barriers that the portal did not refuse; it is an error where it refused all.
pub fn accept_barriers(
    requested: &Vec<RequestedBarrier>,
    failed: &Vec<u32>,
    edge: Edge,
) -> (accepted: Result<Vec<(u32, BarrierMetadata)>, PortalProblem>)
    ensures
        accepted is Err <==> accepted_of(requested@, failed@).len() == 0,
        accepted matches Err(problem) ==> problem == PortalProblem::EveryBarrierRefused(edge),
        accepted matches Ok(list) ==> list@ == accepted_of(requested@, failed@),
{
    let mut accepted: Vec<(u32, BarrierMetadata)> = Vec::new();
    for i in 0..requested.len()
        invariant
            accepted@ == accepted_of(requested@.take(i as int), failed@),
    {
        let barrier = requested[i];
        assert(requested@.take(i + 1).drop_last() == requested@.take(i as int));
        assert(requested@.take(i + 1).last() == barrier);
        if !is_listed(failed, barrier.id) {
            accepted.push((barrier.id, barrier.metadata));
        }
    }
    assert(requested@.take(requested@.len() as int) == requested@);
    if accepted.len() == 0 {
        Err(PortalProblem::EveryBarrierRefused(edge))
    } else {
        Ok(accepted)
    }
}

/// A barrier stands if and only if it was asked for and not refused.
pub proof fn law_refused_barriers_are_forgotten(
    requested: Seq<RequestedBarrier>,
    failed: Seq<u32>,
    id: u32,
    metadata: BarrierMetadata,
)
    ensures
        accepted_of(requested, failed).contains((id, metadata)) <==> !failed.contains(id) && exists|
            i: int,
        |
            0 <= i < requested.len() && requested[i].id == id && #[trigger] requested[i].metadata
                == metadata,
    decreases requested.len(),
{
    if requested.len() > 0 {
        let last = requested.last();
        let before = requested.drop_last();
        let others = accepted_of(before, failed);
        let all = accepted_of(requested, failed);
        law_refused_barriers_are_forgotten(before, failed, id, metadata);
        if all.contains((id, metadata)) {
            let k = choose|k: int| 0 <= k < all.len() && all[k] == (id, metadata);
            if k < others.len() {
                assert(others[k] == (id, metadata));
                let i = choose|i: int|
                    0 <= i < before.len() && before[i].id == id && #[trigger] before[i].metadata
                        == metadata;
                assert(requested[i].metadata == metadata);
            } else {
                assert(requested[requested.len() - 1].metadata == metadata);
            }
        }
        if !failed.contains(id) && exists|i: int|
            0 <= i < requested.len() && requested[i].id == id && #[trigger] requested[i].metadata
                == metadata {
            let i = choose|i: int|
                0 <= i < requested.len() && requested[i].id == id
                    && #[trigger] requested[i].metadata == metadata;
            if i < before.len() {
                assert(before[i].metadata == metadata);
                let k = choose|k: int| 0 <= k < others.len() && others[k] == (id, metadata);
                assert(all[k] == (id, metadata));
            } else {
                assert(all[others.len() as int] == (id, metadata));
            }
        }
    }
}

/// The first barrier with a number.
pub open spec fn barrier_named(barriers: Seq<(u32, BarrierMetadata)>, id: u32) -> Option<
    BarrierMetadata,
>
    decreases barriers.len(),
{
    if barriers.len() == 0 {
        None
    } else if barriers[0].0 == id {
        Some(barriers[0].1)
    } else {
        barrier_named(barriers.skip(1), id)
    }
}

fn find_barrier(barriers: &Vec<(u32, BarrierMetadata)>, id: u32) -> (metadata: Option<
    BarrierMetadata,
>)
    ensures
        metadata == barrier_named(barriers@, id),
{
    assert(barriers@.skip(0) == barriers@);
    for i in 0..barriers.len()
        invariant
            barrier_named(barriers@, id) == barrier_named(barriers@.skip(i as int), id),
    {
        assert(barriers@.skip(i as int).skip(1) == barriers@.skip(i + 1));
        if barriers[i].0 == id {
            return Some(barriers[i].1);
        }
    }
    None
}

/// The barrier with a number; none where the compositor named none.
pub fn barrier_metadata(
    barrier: Option<u32>,
    barriers: &Vec<(u32, BarrierMetadata)>,
) -> (metadata: Option<BarrierMetadata>)
    ensures
        metadata == (match barrier {
            Some(id) => barrier_named(barriers@, id),
            None => None,
        }),
{
    match barrier {
        Some(id) => find_barrier(barriers, id),
        None => None,
    }
}

/// What the desktop captures is passed on as the same input: moves, the wheel
/// and keys as they are, and the five buttons by name. Only a chord that gives
/// the input back is kept, and only what no input stands for is dropped.
pub proof fn law_captured_events_keep_their_meaning(
    held: Set<u16>,
    dx: F64Bits,
    dy: F64Bits,
    code: u32,
    down: bool,
)
    ensures
        eis_action(held, EisEvent::PointerMotion { dx, dy }) == EisAction::Input(
            InputEvent::PointerMotion { dx, dy },
        ),
        eis_action(held, EisEvent::Scroll { x: dx, y: dy }) == EisAction::Input(
            InputEvent::PointerWheel { x: dx, y: dy },
        ),
        eis_action(held, EisEvent::SeatAdded) == EisAction::BindSeat,
        eis_action(held, EisEvent::Stopped) == EisAction::Input(InputEvent::AllKeysUp),
        held_after_eis(held, EisEvent::Stopped) == Set::<u16>::empty(),
        ({
            let action = eis_action(held, EisEvent::Button { button: code, pressed: down });
            let button = if code == 0x110 {
                Some(MouseButton::Left)
            } else if code == 0x111 {
                Some(MouseButton::Right)
            } else if code == 0x112 {
                Some(MouseButton::Middle)
            } else if code == 0x115 {
                Some(MouseButton::Forward)
            } else if code == 0x116 {
                Some(MouseButton::Back)
            } else {
                None
            };
            match button {
                Some(button) => action == EisAction::Input(
                    InputEvent::PointerButton { button, down },
                ),
                None => action == EisAction::Nothing,
            }
        }),
        ({
            let key = EisEvent::KeyboardKey { key: code, pressed: down };
            let chord = down && (code == 119 || code == 1) && (held.contains(29) || held.contains(
                97,
            )) && (held.contains(56) || held.contains(100));
            &&& code > 0xffff ==> eis_action(held, key) == EisAction::Nothing && held_after_eis(
                held,
                key,
            ) == held
            &&& code <= 0xffff && chord ==> eis_action(held, key) == EisAction::EmergencyRelease
            &&& code <= 0xffff && !chord ==> eis_action(held, key) == EisAction::Input(
                InputEvent::Key { evdev_code: code as u16, down },
            )
        }),
{
}

/// A key counts as held from its press to its release, and the others as
/// before.
pub proof fn law_captured_keys_are_held(held: Set<u16>, code: u16, down: bool, other: u16)
    requires
        eis_action(held, EisEvent::KeyboardKey { key: code as u32, pressed: down }) is Input,
    ensures
        ({
            let after = held_after_eis(
                held,
                EisEvent::KeyboardKey { key: code as u32, pressed: down },
            );
            &&& after.contains(code) == down
            &&& other != code ==> after.contains(other) == held.contains(other)
        }),
{
}

/// A barrier stands along the whole edge of its screen that the pointer is to
/// leave over, and knows the screen and the edge: a line on the left or the
/// right runs from the top to the last row, one at the top or the bottom from
/// the left to the last column. On the right and at the bottom it stands just
/// behind the screen.
pub proof fn law_barrier_stands_at_its_edge(regions: Seq<Region>, edge: Edge, i: int)
    requires
        0 <= i < regions.len() < u32::MAX,
        0 < regions[i].width <= i32::MAX,
        0 < regions[i].height <= i32::MAX,
        regions[i].x + regions[i].width <= i32::MAX,
        regions[i].y + regions[i].height <= i32::MAX,
    ensures
        ({
            let region = regions[i];
            let barrier = barriers_for(regions, edge)[i];
            let right = region.x + region.width;
            let bottom = region.y + region.height;
            &&& barriers_for(regions, edge).len() == regions.len()
            &&& barrier.id == i + 1
            &&& barrier.metadata.edge == edge
            &&& barrier.metadata.x == region.x
            &&& barrier.metadata.y == region.y
            &&& barrier.metadata.width == region.width
            &&& barrier.metadata.height == region.height
            &&& edge == Edge::Left || edge == Edge::Right ==> {
                &&& barrier.x1 == barrier.x2
                &&& barrier.x1 == if edge == Edge::Left {
                    region.x as int
                } else {
                    right
                }
                &&& barrier.y1 == region.y
                &&& barrier.y2 == bottom - 1
            }
            &&& edge == Edge::Top || edge == Edge::Bottom ==> {
                &&& barrier.y1 == barrier.y2
                &&& barrier.y1 == if edge == Edge::Top {
                    region.y as int
                } else {
                    bottom
                }
                &&& barrier.x1 == region.x
                &&& barrier.x2 == right - 1
            }
        }),
{
}

/// A barrier is found by its number: what is found is in the list under that
/// number, and nothing is found only where none has it.
pub proof fn law_barrier_is_found(barriers: Seq<(u32, BarrierMetadata)>, id: u32)
    ensures
        match barrier_named(barriers, id) {
            Some(metadata) => exists|i: int|
                0 <= i < barriers.len() && #[trigger] barriers[i] == (id, metadata) && forall|j: int|
                    0 <= j < i ==> (#[trigger] barriers[j]).0 != id,
            None => forall|i: int| 0 <= i < barriers.len() ==> (#[trigger] barriers[i]).0 != id,
        },
    decreases barriers.len(),
{
    if barriers.len() > 0 {
        let rest = barriers.skip(1);
        assert forall|j: int| 0 <= j < rest.len() implies #[trigger] rest[j] == barriers[j + 1] by {
        }
        if barriers[0].0 == id {
            assert(barriers[0] == (id, barriers[0].1));
        } else {
            law_barrier_is_found(rest, id);
            match barrier_named(rest, id) {
                Some(metadata) => {
                    let k = choose|i: int|
                        0 <= i < rest.len() && #[trigger] rest[i] == (id, metadata) && forall|j:
                            int|
                            0 <= j < i ==> (#[trigger] rest[j]).0 != id;
                    assert(barriers[k + 1] == (id, metadata));
                    assert forall|j: int| 0 <= j < k + 1 implies (#[trigger] barriers[j]).0
                        != id by {
                        if j > 0 {
                            assert(rest[j - 1].0 != id);
                        }
                    }
                },
                None => {
                    assert forall|i: int| 0 <= i < barriers.len() implies (#[trigger] barriers[i]).0
                        != id by {
                        if i > 0 {
                            assert(rest[i - 1].0 != id);
                        }
                    }
                },
            }
        }
    }
}

} // verus!
