//! What the desktop of this computer, and that of the other one, look like.

use crate::capture::{as_signed, signed};
use crate::clock::{millis, Instant};
use crate::protocol::{ControlEvent, Edge, ScreenInfo};
use crate::session::{lemma_holds_empty, lemma_holds_push};
use crate::text::{
    chars_of, lowered, parse_i32, signed_value, str_eq, string_of, to_lower, trim, trimmed,
};
use vstd::prelude::*;

verus! {

/// The size of a screen.
#[derive(Clone, Copy, Debug, PartialEq, Eq, Structural)]
pub struct Size {
    pub width: u32,
    pub height: u32,
}

/// How wide the screen of the other computer is taken to be where it is not known.
pub const FALLBACK_REMOTE_WIDTH: u32 = 1920;

/// How high the screen of the other computer is taken to be where it is not known.
pub const FALLBACK_REMOTE_HEIGHT: u32 = 1080;

/// What the screen of the other computer is taken for where it is not known.
pub open spec fn fallback_size() -> Size {
    Size { width: FALLBACK_REMOTE_WIDTH, height: FALLBACK_REMOTE_HEIGHT }
}

/// What the screen of the other computer is taken for where it is not known.
pub fn fallback_remote_size() -> (size: Size)
    ensures
        size == fallback_size(),
{
    Size { width: FALLBACK_REMOTE_WIDTH, height: FALLBACK_REMOTE_HEIGHT }
}

/// Where a screen lies on the desktop.
#[derive(Clone, Copy, Debug, PartialEq, Eq, Structural)]
pub struct ScreenArea {
    pub x: i32,
    pub y: i32,
    pub width: u32,
    pub height: u32,
}

/// The first screen with a name, from some place on.
pub open spec fn screen_named(info: ScreenInfo, from: int) -> Option<int>
    decreases info.outputs@.len() - from,
{
    if from < 0 || from >= info.outputs@.len() {
        None
    } else if info.outputs@[from].name@ == info.primary_output@ {
        Some(from)
    } else {
        screen_named(info, from + 1)
    }
}

/// The area of a screen.
pub open spec fn area_of(info: ScreenInfo, i: int) -> ScreenArea {
    let output = info.outputs@[i];
    ScreenArea { x: output.x, y: output.y, width: output.width, height: output.height }
}

/// The screen that is used: the one that is named as the primary one, else the first.
pub open spec fn used_screen(info: ScreenInfo) -> Option<ScreenArea> {
    match screen_named(info, 0) {
        Some(i) => Some(area_of(info, i)),
        None => if info.outputs@.len() > 0 {
            Some(area_of(info, 0))
        } else {
            None
        },
    }
}

/// The screen that is used: the one that is named as the primary one, else the first.
pub fn primary_screen(info: &ScreenInfo) -> (area: Option<ScreenArea>)
    ensures
        area == used_screen(*info),
{
    for i in 0..info.outputs.len()
        invariant
            screen_named(*info, 0) == screen_named(*info, i as int),
    {
        let output = &info.outputs[i];
        if str_eq(output.name.as_str(), info.primary_output.as_str()) {
            return Some(
                ScreenArea {
                    x: output.x,
                    y: output.y,
                    width: output.width,
                    height: output.height,
                },
            );
        }
    }
    if info.outputs.len() == 0 {
        return None;
    }
    let output = &info.outputs[0];
    Some(ScreenArea { x: output.x, y: output.y, width: output.width, height: output.height })
}

/// The size of the other computer's screen, and whether it had to be guessed:
/// it is where no screen is known, or one without an area.
pub open spec fn size_of_remote(area: Option<ScreenArea>) -> (Size, bool) {
    match area {
        Some(area) if area.width > 0 && area.height > 0 => (
            Size { width: area.width, height: area.height },
            false,
        ),
        _ => (fallback_size(), true),
    }
}

/// The size of the other computer's screen, and whether it had to be guessed.
pub fn remote_size(screen_info: Option<&ScreenInfo>) -> (size: (Size, bool))
    ensures
        size == size_of_remote(
            match screen_info {
                Some(info) => used_screen(*info),
                None => None,
            },
        ),
{
    let area = match screen_info {
        Some(info) => primary_screen(info),
        None => None,
    };
    match area {
        Some(area) => {
            if area.width > 0 && area.height > 0 {
                (Size { width: area.width, height: area.height }, false)
            } else {
                (fallback_remote_size(), true)
            }
        },
        None => (fallback_remote_size(), true),
    }
}

/// Where the pointer is, in the compositor's coordinates.
#[derive(Clone, Copy, Debug, PartialEq, Eq, Structural)]
pub struct HyprCursorPosition {
    pub x: i32,
    pub y: i32,
}

/// The number of characters before the first one of a kind, or all.
pub open spec fn length_before(s: Seq<char>, mark: char) -> int
    decreases s.len(),
{
    if s.len() == 0 || s[0] == mark {
        0
    } else {
        1 + length_before(s.skip(1), mark)
    }
}

/// No more characters stand before a mark than there are.
pub proof fn lemma_length_before(s: Seq<char>, mark: char)
    ensures
        0 <= length_before(s, mark) <= s.len(),
    decreases s.len(),
{
    if s.len() > 0 && s[0] != mark {
        lemma_length_before(s.skip(1), mark);
    }
}

pub(crate) fn find_mark(chars: &Vec<char>, from: usize, mark: char) -> (at: usize)
    requires
        from <= chars@.len(),
    ensures
        from <= at <= chars@.len(),
        at == from + length_before(chars@.skip(from as int), mark),
{
    let mut at: usize = from;
    while at < chars.len() && chars[at] != mark
        invariant
            from <= at <= chars@.len(),
            from + length_before(chars@.skip(from as int), mark) == at + length_before(
                chars@.skip(at as int),
                mark,
            ),
        decreases chars@.len() - at,
    {
        assert(chars@.skip(at as int).skip(1) == chars@.skip(at + 1));
        at = at + 1;
    }
    at
}

/// What a text of two numbers with a comma between them stands for.
pub open spec fn cursor_position_of(text: Seq<char>) -> Option<HyprCursorPosition> {
    let comma = length_before(text, ',');
    if comma == text.len() {
        None
    } else {
        match (
            signed_value(trimmed(text.take(comma))),
            signed_value(trimmed(text.skip(comma + 1))),
        ) {
            (Some(x), Some(y)) => Some(HyprCursorPosition { x: x as i32, y: y as i32 }),
            _ => None,
        }
    }
}

/// Reads where the pointer is: two numbers with a comma between them.
pub fn parse_hypr_cursor_position(text: &str) -> (position: Option<HyprCursorPosition>)
    ensures
        position == cursor_position_of(text@),
{
    let chars: Vec<char> = chars_of(text);
    let total: usize = chars.len();
    assert(chars@.skip(0) == chars@);
    let comma: usize = find_mark(&chars, 0, ',');
    if comma == total {
        return None;
    }
    let first = string_of(&chars, 0, comma);
    let second = string_of(&chars, comma + 1, total);
    assert(first@ == text@.take(comma as int));
    assert(second@ == text@.skip(comma + 1));
    match parse_i32(trim(first.as_str())) {
        Some(x) => match parse_i32(trim(second.as_str())) {
            Some(y) => Some(HyprCursorPosition { x, y }),
            None => None,
        },
        None => None,
    }
}

/// What one line says of an option that is zero or one.
pub open spec fn line_option(line: Seq<char>) -> Option<bool> {
    let text = trimmed(line);
    if text.len() >= 4 && text.take(4) == "int:"@ {
        let value = trimmed(text.skip(4));
        if value == "0"@ {
            Some(false)
        } else if value == "1"@ {
            Some(true)
        } else {
            None
        }
    } else {
        None
    }
}

/// What the first line that says anything says of an option that is zero or one.
pub open spec fn option_of(text: Seq<char>) -> Option<bool>
    decreases text.len(),
{
    proof {
        lemma_length_before(text, '\n');
    }
    let end = length_before(text, '\n');
    match line_option(text.take(end)) {
        Some(value) => Some(value),
        None => if end < text.len() {
            option_of(text.skip(end + 1))
        } else {
            None
        },
    }
}

fn read_line_option(line: &str) -> (value: Option<bool>)
    ensures
        value == line_option(line@),
{
    let text = trim(line);
    let chars: Vec<char> = chars_of(text);
    let total: usize = chars.len();
    proof {
        reveal_strlit("int:");
    }
    if total < 4 || chars[0] != 'i' || chars[1] != 'n' || chars[2] != 't' || chars[3] != ':' {
        proof {
            if total >= 4 && chars@.take(4) == "int:"@ {
                assert(chars@.take(4)[0] == 'i' && chars@.take(4)[1] == 'n' && chars@.take(4)[2]
                    == 't' && chars@.take(4)[3] == ':');
            }
        }
        return None;
    }
    assert(chars@.take(4) == "int:"@);
    let rest = string_of(&chars, 4, total);
    assert(rest@ == chars@.skip(4));
    let value = trim(rest.as_str());
    if str_eq(value, "0") {
        Some(false)
    } else if str_eq(value, "1") {
        Some(true)
    } else {
        None
    }
}

/// Reads what is printed of an option that is zero or one.
pub fn parse_invisible_option(text: &str) -> (value: Option<bool>)
    ensures
        value == option_of(text@),
{
    let chars: Vec<char> = chars_of(text);
    let total: usize = chars.len();
    let mut from: usize = 0;
    assert(chars@.skip(0) == chars@);
    loop
        invariant
            chars@ == text@,
            total == chars@.len(),
            from <= total,
            option_of(text@) == option_of(chars@.skip(from as int)),
        decreases total - from,
    {
        let end: usize = find_mark(&chars, from, '\n');
        let line = string_of(&chars, from, end);
        proof {
            lemma_length_before(chars@.skip(from as int), '\n');
            assert(chars@.skip(from as int).take(end - from) == line@);
        }
        match read_line_option(line.as_str()) {
            Some(value) => {
                return Some(value);
            },
            None => {},
        }
        if end == total {
            return None;
        }
        assert(chars@.skip(from as int).skip(end - from + 1) == chars@.skip(end + 1));
        assert(option_of(chars@.skip(from as int)) == option_of(chars@.skip(end + 1)));
        from = end + 1;
    }
}

/// The pointer of the compositor, which can be made invisible.
#[derive(Clone, Copy, Debug, PartialEq, Eq, Structural)]
pub struct HyprlandCursorController {
    pub original_invisible: bool,
    pub current_invisible: bool,
}

/// The value of an option, as it is written.
pub open spec fn written(value: bool) -> Seq<char> {
    if value {
        "true"@
    } else {
        "false"@
    }
}

impl HyprlandCursorController {
    /// What the desktop is asked to set so that the cursor is as wished; nothing
    /// where it is so.
    pub open spec fn asking(self, invisible: bool) -> Option<Seq<char>> {
        if self.current_invisible == invisible {
            None
        } else {
            Some(written(invisible))
        }
    }

    /// The state in which the desktop has done so.
    pub open spec fn showing(self, invisible: bool) -> Self {
        HyprlandCursorController { current_invisible: invisible, ..self }
    }

    /// The pointer as it was found.
    pub fn connect(printed: &str) -> (controller: Option<Self>)
        ensures
            controller == (match option_of(printed@) {
                Some(invisible) => Some(
                    HyprlandCursorController {
                        original_invisible: invisible,
                        current_invisible: invisible,
                    },
                ),
                None => None,
            }),
    {
        match parse_invisible_option(printed) {
            Some(invisible) => Some(
                HyprlandCursorController {
                    original_invisible: invisible,
                    current_invisible: invisible,
                },
            ),
            None => None,
        }
    }

    /// Whether the pointer is invisible.
    pub fn is_hidden(&self) -> (hidden: bool)
        ensures
            hidden == self.current_invisible,
    {
        self.current_invisible
    }

    /// What to set the option to, to hide the pointer or to show it; nothing where it is so
    /// already.
    pub fn request(&self, invisible: bool) -> (value: Option<&'static str>)
        ensures
            match value {
                Some(text) => self.asking(invisible) == Some(text@),
                None => self.asking(invisible) is None,
            },
    {
        if self.current_invisible == invisible {
            None
        } else if invisible {
            Some("true")
        } else {
            Some("false")
        }
    }

    /// What to set the option to, to have the pointer as it was found.
    pub fn restore(&self) -> (value: Option<&'static str>)
        ensures
            match value {
                Some(text) => self.asking(self.original_invisible) == Some(text@),
                None => self.asking(self.original_invisible) is None,
            },
    {
        self.request(self.original_invisible)
    }

    /// Notes that the option was set.
    pub fn applied(&mut self, invisible: bool)
        ensures
            *final(self) == old(self).showing(invisible),
    {
        self.current_invisible = invisible;
    }

    /// Notes that the pointer is as it was found.
    pub fn restored(&mut self)
        ensures
            *final(self) == old(self).showing(old(self).original_invisible),
    {
        self.current_invisible = self.original_invisible;
    }
}

/// A mark between the names of desktops.
pub open spec fn is_mark(c: char) -> bool {
    c == ':' || c == ';'
}

/// A name of a list of desktops, however it is written: what stands between two marks.
pub open spec fn is_desktop(value: Seq<char>, a: int, b: int, name: Seq<char>) -> bool {
    &&& 0 <= a <= b <= value.len()
    &&& a == 0 || is_mark(value[a - 1])
    &&& b == value.len() || is_mark(value[b])
    &&& forall|i: int| a <= i < b ==> !is_mark(#[trigger] value[i])
    &&& lowered(value.subrange(a, b)) == name
}

/// Whether a list of desktops has Niri among them.
pub open spec fn lists_niri(value: Seq<char>) -> bool {
    exists|a: int, b: int| is_desktop(value, a, b, "niri"@)
}

fn next_mark(chars: &Vec<char>, from: usize) -> (end: usize)
    requires
        from <= chars@.len(),
    ensures
        from <= end <= chars@.len(),
        end == chars@.len() || is_mark(chars@[end as int]),
        forall|i: int| from <= i < end ==> !is_mark(#[trigger] chars@[i]),
{
    let mut end: usize = from;
    while end < chars.len() && chars[end] != ':' && chars[end] != ';'
        invariant
            from <= end <= chars@.len(),
            forall|i: int| from <= i < end ==> !is_mark(#[trigger] chars@[i]),
        decreases chars@.len() - end,
    {
        end = end + 1;
    }
    end
}

/// Whether a list of desktops has Niri among them.
pub fn desktop_names_include_niri(value: &str) -> (found: bool)
    ensures
        found == lists_niri(value@),
{
    let chars: Vec<char> = chars_of(value);
    let total: usize = chars.len();
    let mut from: usize = 0;
    loop
        invariant
            chars@ == value@,
            total == chars@.len(),
            from <= total,
            from == 0 || is_mark(chars@[from - 1]),
            forall|a: int, b: int| a < from ==> !is_desktop(value@, a, b, "niri"@),
        decreases total - from,
    {
        let end: usize = next_mark(&chars, from);
        let name = to_lower(string_of(&chars, from, end).as_str());
        if str_eq(name.as_str(), "niri") {
            assert(is_desktop(value@, from as int, end as int, "niri"@));
            return true;
        }
        assert forall|a: int, b: int| a <= end implies !is_desktop(value@, a, b, "niri"@) by {
            if is_desktop(value@, a, b, "niri"@) {
                if a == from {
                    if b < end {
                        assert(!is_mark(chars@[b]));
                    }
                    if b > end {
                        assert(!is_mark(value@[end as int]));
                    }
                    assert(b == end);
                } else {
                    assert(!is_mark(chars@[a - 1]));
                }
            }
        }
        if end == total {
            assert forall|a: int, b: int| !is_desktop(value@, a, b, "niri"@) by {}
            return false;
        }
        from = end + 1;
    }
}

/// Whether this is a session of Niri: its name is in one of the lists of
/// desktops, or its socket is there.
pub fn is_niri_session(
    current_desktop: Option<&str>,
    session_desktop: Option<&str>,
    has_socket: bool,
) -> (niri: bool)
    ensures
        niri == (has_socket || (current_desktop matches Some(value) && lists_niri(value@)) || (
        session_desktop matches Some(value) && lists_niri(value@))),
{
    let current = match current_desktop {
        Some(value) => desktop_names_include_niri(value),
        None => false,
    };
    let session = match session_desktop {
        Some(value) => desktop_names_include_niri(value),
        None => false,
    };
    current || session || has_socket
}

/// What input is played through.
#[derive(Clone, Copy, Debug, PartialEq, Eq, Structural)]
pub enum ReceiverBackend {
    Libei,
    Uinput,
    Hyprland,
    LogOnly,
}

/// Why no backend can be taken.
#[derive(Clone, Debug)]
pub enum BackendProblem {
    LibeiUnavailable,
    Unsupported(String),
}

impl BackendProblem {
    /// The words for it.
    pub open spec fn words(self) -> Seq<char> {
        match self {
            BackendProblem::LibeiUnavailable =>
                "input.backend is \"libei\", but libei-1.0 is not available through pkg-config"@,
            BackendProblem::Unsupported(other) => "unsupported input.backend \""@ + other@
                + "\"; expected auto, uinput, hyprland, libei, or log"@,
        }
    }

    /// The words for it.
    pub fn text(self) -> (text: String)
        ensures
            text@ == self.words(),
    {
        match self {
            BackendProblem::LibeiUnavailable =>
                "input.backend is \"libei\", but libei-1.0 is not available through pkg-config".to_owned(),
            BackendProblem::Unsupported(other) => "unsupported input.backend \"".to_owned().concat(
                other.as_str(),
            ).concat("\"; expected auto, uinput, hyprland, libei, or log"),
        }
    }
}

/// No backends.
pub open spec fn no_backends() -> Seq<ReceiverBackend> {
    Seq::empty()
}

/// Why there is no plan.
pub ghost enum PlanProblem {
    LibeiUnavailable,
    Unsupported(Seq<char>),
}

/// The backends that are tried for a wish, one behind the other.
pub open spec fn planned(requested: Seq<char>, niri: bool, libei_available: bool) -> Result<
    Seq<ReceiverBackend>,
    PlanProblem,
> {
    let name = lowered(requested);
    if name == "auto"@ {
        Ok(auto_backends(niri, libei_available))
    } else if name == "hyprland"@ {
        Ok(no_backends().push(ReceiverBackend::Hyprland))
    } else if name == "uinput"@ {
        Ok(no_backends().push(ReceiverBackend::Uinput))
    } else if name == "libei"@ {
        if libei_available {
            Ok(no_backends().push(ReceiverBackend::Libei))
        } else {
            Err(PlanProblem::LibeiUnavailable)
        }
    } else if name == "log"@ || name == "mock"@ || name == "none"@ {
        Ok(no_backends().push(ReceiverBackend::LogOnly))
    } else {
        Err(PlanProblem::Unsupported(name))
    }
}

/// The backends that are tried for "auto": the first that can be had is taken.
pub open spec fn auto_backends(niri: bool, libei_available: bool) -> Seq<ReceiverBackend> {
    let first = if niri {
        no_backends().push(ReceiverBackend::Uinput)
    } else {
        no_backends()
    };
    let second = if libei_available {
        first.push(ReceiverBackend::Libei)
    } else {
        first
    };
    second.push(ReceiverBackend::Hyprland)
}

impl ReceiverBackend {
    /// Its name.
    pub open spec fn words(self) -> Seq<char> {
        match self {
            ReceiverBackend::Libei => "libei"@,
            ReceiverBackend::Uinput => "uinput"@,
            ReceiverBackend::Hyprland => "hyprland"@,
            ReceiverBackend::LogOnly => "log"@,
        }
    }

    /// Its name.
    pub fn label(self) -> (label: &'static str)
        ensures
            label@ == self.words(),
    {
        match self {
            ReceiverBackend::Libei => "libei",
            ReceiverBackend::Uinput => "uinput",
            ReceiverBackend::Hyprland => "hyprland",
            ReceiverBackend::LogOnly => "log",
        }
    }

    /// The backends to try, in order, for what the configuration asks; the first that can be had
    /// is taken.
    pub fn from_config(requested: &str, niri: bool, libei_available: bool) -> (plan: Result<
        Vec<ReceiverBackend>,
        BackendProblem,
    >)
        ensures
            match plan {
                Ok(list) => planned(requested@, niri, libei_available) == Ok::<
                    Seq<ReceiverBackend>,
                    PlanProblem,
                >(list@),
                Err(BackendProblem::LibeiUnavailable) => planned(requested@, niri, libei_available)
                    == Err::<Seq<ReceiverBackend>, PlanProblem>(PlanProblem::LibeiUnavailable),
                Err(BackendProblem::Unsupported(other)) => planned(
                    requested@,
                    niri,
                    libei_available,
                ) == Err::<Seq<ReceiverBackend>, PlanProblem>(PlanProblem::Unsupported(other@)),
            },
    {
        let name = to_lower(requested);
        let mut plan: Vec<ReceiverBackend> = Vec::new();
        if str_eq(name.as_str(), "auto") {
            if niri {
                plan.push(ReceiverBackend::Uinput);
            }
            if libei_available {
                plan.push(ReceiverBackend::Libei);
            }
            plan.push(ReceiverBackend::Hyprland);
        } else if str_eq(name.as_str(), "hyprland") {
            plan.push(ReceiverBackend::Hyprland);
        } else if str_eq(name.as_str(), "uinput") {
            plan.push(ReceiverBackend::Uinput);
        } else if str_eq(name.as_str(), "libei") {
            if !libei_available {
                return Err(BackendProblem::LibeiUnavailable);
            }
            plan.push(ReceiverBackend::Libei);
        } else if str_eq(name.as_str(), "log") || str_eq(name.as_str(), "mock") || str_eq(
            name.as_str(),
            "none",
        ) {
            plan.push(ReceiverBackend::LogOnly);
        } else {
            return Err(BackendProblem::Unsupported(name));
        }
        Ok(plan)
    }
}

/// "auto" never settles for playing no input, and always has something to try.
pub proof fn law_auto_plays_input(niri: bool, libei_available: bool)
    ensures
        !auto_backends(niri, libei_available).contains(ReceiverBackend::LogOnly),
        auto_backends(niri, libei_available).last() == ReceiverBackend::Hyprland,
        niri ==> auto_backends(niri, libei_available)[0] == ReceiverBackend::Uinput,
{
}

/// How close to the edge the pointer has to be to go back.
pub const RETURN_EDGE_MARGIN: i32 = 12;

/// How often the pointer is looked for, in milliseconds.
pub const RETURN_EDGE_POLL_MILLIS: u64 = 40;

/// How long the pointer is left alone once it came over, in milliseconds.
pub const RETURN_EDGE_ENTRY_GRACE_MILLIS: u64 = 350;

/// How often in a row the pointer has to be at the edge.
pub const RETURN_EDGE_CONFIRMATIONS: u8 = 2;

/// Whether the pointer is at the edge of a screen that faces the other computer.
pub open spec fn at_return_edge(cursor: HyprCursorPosition, screen: ScreenArea, edge: Edge) -> bool {
    let across = if screen.width > 0 {
        signed((screen.width - 1) as u32)
    } else {
        0
    };
    let down = if screen.height > 0 {
        signed((screen.height - 1) as u32)
    } else {
        0
    };
    match edge {
        Edge::Left => cursor.x >= screen.x + across - RETURN_EDGE_MARGIN,
        Edge::Right => cursor.x <= screen.x + RETURN_EDGE_MARGIN,
        Edge::Top => cursor.y >= screen.y + down - RETURN_EDGE_MARGIN,
        Edge::Bottom => cursor.y <= screen.y + RETURN_EDGE_MARGIN,
    }
}

/// Whether the pointer is at the edge of a screen that faces the other computer.
pub fn real_cursor_at_return_edge(
    cursor: HyprCursorPosition,
    output: ScreenArea,
    edge: Edge,
) -> (there: bool)
    ensures
        there == at_return_edge(cursor, output, edge),
{
    let margin: i64 = RETURN_EDGE_MARGIN as i64;
    let left: i64 = output.x as i64;
    let top: i64 = output.y as i64;
    let right: i64 = left + as_signed(output.width.saturating_sub(1)) as i64;
    let bottom: i64 = top + as_signed(output.height.saturating_sub(1)) as i64;
    match edge {
        Edge::Left => cursor.x as i64 >= right - margin,
        Edge::Right => cursor.x as i64 <= left + margin,
        Edge::Top => cursor.y as i64 >= bottom - margin,
        Edge::Bottom => cursor.y as i64 <= top + margin,
    }
}

/// Watches for the pointer to go back to the computer that it came from.
#[derive(Clone, Copy, Debug, PartialEq, Eq, Structural)]
pub struct RemoteReturnWatcher {
    pub output: Option<ScreenArea>,
    /// The edge that the pointer left the other computer by.
    pub edge: Option<Edge>,
    /// When the pointer was last looked for; none where that is due.
    pub last_poll: Option<Instant>,
    pub entered_at: Option<Instant>,
    pub consecutive_edge_polls: u8,
}

impl RemoteReturnWatcher {
    /// The pointer is not here.
    pub open spec fn away(self) -> Self {
        RemoteReturnWatcher { edge: None, entered_at: None, consecutive_edge_polls: 0, ..self }
    }

    /// After something was said of the pointer.
    pub open spec fn after_control(self, control: ControlEvent, now: Instant) -> Self {
        match control {
            ControlEvent::EnterRemote { edge, .. } => RemoteReturnWatcher {
                edge: Some(edge),
                last_poll: None,
                entered_at: Some(now),
                consecutive_edge_polls: 0,
                ..self
            },
            ControlEvent::SetInputForwarding { enabled: true } => self,
            _ => self.away(),
        }
    }

    /// Whether it is time to look where the pointer is.
    pub open spec fn is_due(self, now: Instant) -> bool {
        &&& self.edge is Some
        &&& self.output is Some
        &&& self.entered_at matches Some(entered) ==> now.since(entered) >= millis(
            RETURN_EDGE_ENTRY_GRACE_MILLIS as int,
        )
        &&& self.last_poll matches Some(last) ==> now.since(last) >= millis(
            RETURN_EDGE_POLL_MILLIS as int,
        )
    }

    /// The pointer is looked for where that is due.
    pub open spec fn after_look(self, now: Instant) -> Self {
        if self.is_due(now) {
            RemoteReturnWatcher { last_poll: Some(now), ..self }
        } else {
            self
        }
    }

    /// After the pointer was found, and whether it goes back.
    pub open spec fn after_cursor(self, cursor: HyprCursorPosition) -> (Self, Option<Edge>) {
        match (self.output, self.edge) {
            (Some(screen), Some(edge)) => if !at_return_edge(cursor, screen, edge) {
                (RemoteReturnWatcher { consecutive_edge_polls: 0, ..self }, None)
            } else if self.consecutive_edge_polls + 1 < RETURN_EDGE_CONFIRMATIONS {
                (
                    RemoteReturnWatcher {
                        consecutive_edge_polls: (self.consecutive_edge_polls + 1) as u8,
                        ..self
                    },
                    None,
                )
            } else {
                (self.away(), Some(edge))
            },
            _ => (self, None),
        }
    }

    /// Watches a screen, where there is one; the pointer is not here yet.
    pub fn new(screen_info: Option<&ScreenInfo>) -> (watcher: Self)
        ensures
            watcher == (RemoteReturnWatcher {
                output: match screen_info {
                    Some(info) => used_screen(*info),
                    None => None,
                },
                edge: None,
                last_poll: None,
                entered_at: None,
                consecutive_edge_polls: 0,
            }),
    {
        let output = match screen_info {
            Some(info) => primary_screen(info),
            None => None,
        };
        RemoteReturnWatcher {
            output,
            edge: None,
            last_poll: None,
            entered_at: None,
            consecutive_edge_polls: 0,
        }
    }

    /// Takes what was said of the pointer.
    pub fn record_control(&mut self, control: &ControlEvent, now: Instant)
        ensures
            *final(self) == old(self).after_control(*control, now),
    {
        match control {
            ControlEvent::EnterRemote { edge, .. } => {
                self.edge = Some(*edge);
                self.last_poll = None;
                self.entered_at = Some(now);
                self.consecutive_edge_polls = 0;
            },
            ControlEvent::SetInputForwarding { enabled: true } => {},
            _ => {
                self.edge = None;
                self.entered_at = None;
                self.consecutive_edge_polls = 0;
            },
        }
    }

    /// Whether to look where the pointer is; if so, that counts as a look.
    pub fn start_poll(&mut self, now: Instant) -> (due: bool)
        ensures
            due == old(self).is_due(now),
            *final(self) == old(self).after_look(now),
    {
        if self.edge.is_none() || self.output.is_none() {
            return false;
        }
        match self.entered_at {
            Some(entered) => {
                if !now.is_millis_after(entered, RETURN_EDGE_ENTRY_GRACE_MILLIS) {
                    return false;
                }
            },
            None => {},
        }
        match self.last_poll {
            Some(last) => {
                if !now.is_millis_after(last, RETURN_EDGE_POLL_MILLIS) {
                    return false;
                }
            },
            None => {},
        }
        self.last_poll = Some(now);
        true
    }

    /// Takes where the pointer is; gives the edge where it goes back.
    pub fn release_if_at_edge(&mut self, cursor: HyprCursorPosition) -> (left: Option<Edge>)
        ensures
            (*final(self), left) == old(self).after_cursor(cursor),
    {
        match (self.output, self.edge) {
            (Some(screen), Some(edge)) => {
                if !real_cursor_at_return_edge(cursor, screen, edge) {
                    self.consecutive_edge_polls = 0;
                    return None;
                }
                let polls: u8 = self.consecutive_edge_polls.saturating_add(1);
                if polls < RETURN_EDGE_CONFIRMATIONS {
                    self.consecutive_edge_polls = polls;
                    return None;
                }
                self.edge = None;
                self.entered_at = None;
                self.consecutive_edge_polls = 0;
                Some(edge)
            },
            _ => None,
        }
    }
}

/// The pointer does not go back right after it came over, nor on a single look.
pub proof fn law_pointer_does_not_bounce(
    watcher: RemoteReturnWatcher,
    edge: Edge,
    position: crate::protocol::F32Bits,
    entered: Instant,
    now: Instant,
    cursor: HyprCursorPosition,
)
    ensures
        now.since(entered) < millis(RETURN_EDGE_ENTRY_GRACE_MILLIS as int)
            ==> !watcher.after_control(
            ControlEvent::EnterRemote { edge, normalized_position: position },
            entered,
        ).is_due(now),
        watcher.after_control(
            ControlEvent::EnterRemote { edge, normalized_position: position },
            entered,
        ).after_cursor(cursor).1 is None,
{
}

/// Once the pointer went back, or was called back, it is not looked for until
/// it comes over again.
pub proof fn law_return_is_reported_once(
    watcher: RemoteReturnWatcher,
    cursor: HyprCursorPosition,
    control: ControlEvent,
    now: Instant,
    later: Instant,
)
    ensures
        watcher.after_cursor(cursor).1 is Some ==> !watcher.after_cursor(cursor).0.is_due(later),
        control is ReleaseToLocal || control is LeaveRemote ==> !watcher.after_control(
            control,
            now,
        ).is_due(later),
{
}

/// Where the pointer is taken to return: within twelve steps of the side of the
/// screen that it came in over. One that left the other computer to the left
/// came in on the right, and so on around.
pub proof fn law_return_edge_is_where_it_came_in(
    cursor: HyprCursorPosition,
    screen: ScreenArea,
    edge: Edge,
)
    requires
        0 < screen.width <= i32::MAX,
        0 < screen.height <= i32::MAX,
    ensures
        edge == Edge::Left ==> (at_return_edge(cursor, screen, edge) <==> screen.x + screen.width
            - 1 - cursor.x <= 12),
        edge == Edge::Right ==> (at_return_edge(cursor, screen, edge) <==> cursor.x - screen.x
            <= 12),
        edge == Edge::Top ==> (at_return_edge(cursor, screen, edge) <==> screen.y + screen.height
            - 1 - cursor.y <= 12),
        edge == Edge::Bottom ==> (at_return_edge(cursor, screen, edge) <==> cursor.y - screen.y
            <= 12),
{
}

/// A pointer that is found at the edge twice in a row returns over the edge
/// that it came by, and then is away; a look that finds it elsewhere starts the
/// count anew.
pub proof fn law_pointer_returns_when_found_twice(
    watcher: RemoteReturnWatcher,
    screen: ScreenArea,
    edge: Edge,
    first: HyprCursorPosition,
    second: HyprCursorPosition,
)
    requires
        watcher.output == Some(screen),
        watcher.edge == Some(edge),
        watcher.consecutive_edge_polls == 0,
    ensures
        ({
            let (once, nothing_yet) = watcher.after_cursor(first);
            let (twice, left) = once.after_cursor(second);
            let leaves = at_return_edge(first, screen, edge) && at_return_edge(
                second,
                screen,
                edge,
            );
            &&& nothing_yet is None
            &&& leaves ==> left == Some(edge) && twice.edge is None && twice.entered_at is None
                && twice.consecutive_edge_polls == 0
            &&& !leaves ==> left is None && twice.edge == Some(edge)
            &&& !at_return_edge(second, screen, edge) ==> twice.consecutive_edge_polls == 0
            &&& twice.output == watcher.output
        }),
{
}

/// The pointer is looked for from 350 milliseconds after it came in, every 40
/// milliseconds, as long as it is here.
pub proof fn law_pointer_is_looked_for(
    watcher: RemoteReturnWatcher,
    edge: Edge,
    position: crate::protocol::F32Bits,
    entered: Instant,
    now: Instant,
)
    requires
        watcher.output is Some,
        entered.nanos <= now.nanos,
    ensures
        ({
            let came = watcher.after_control(
                ControlEvent::EnterRemote { edge, normalized_position: position },
                entered,
            );
            let looked = came.after_look(now);
            &&& came.edge == Some(edge)
            &&& came.output == watcher.output
            &&& came.consecutive_edge_polls == 0
            &&& came.is_due(now) <==> now.nanos - entered.nanos >= 350_000_000
            &&& looked.edge == came.edge && looked.output == came.output
            &&& came.is_due(now) ==> forall|later: Instant| #![trigger looked.is_due(later)]
                later.nanos >= now.nanos ==> (looked.is_due(later) <==> later.nanos - now.nanos
                    >= 40_000_000)
            &&& !came.is_due(now) ==> looked == came
        }),
        watcher.after_control(ControlEvent::SetInputForwarding { enabled: true }, now) == watcher,
        !watcher.after_control(
            ControlEvent::SetInputForwarding { enabled: false },
            now,
        ).is_due(now),
{
}

proof fn lemma_screen_named(info: ScreenInfo, from: int)
    requires
        0 <= from <= info.outputs@.len(),
    ensures
        match screen_named(info, from) {
            Some(i) => from <= i < info.outputs@.len() && info.outputs@[i].name@
                == info.primary_output@ && forall|j: int|
                from <= j < i ==> (#[trigger] info.outputs@[j]).name@ != info.primary_output@,
            None => forall|j: int|
                from <= j < info.outputs@.len() ==> (#[trigger] info.outputs@[j]).name@
                    != info.primary_output@,
        },
    decreases info.outputs@.len() - from,
{
    if from < info.outputs@.len() && info.outputs@[from].name@ != info.primary_output@ {
        lemma_screen_named(info, from + 1);
    }
}

/// The screen that is used is the one that is named as the first among those of
/// that name, and else the first of all; there is none only where there are no
/// screens.
pub proof fn law_named_screen_is_used(info: ScreenInfo, i: int)
    requires
        0 <= i < info.outputs@.len(),
    ensures
        used_screen(info) is Some,
        info.outputs@[i].name@ == info.primary_output@ && (forall|j: int|
            0 <= j < i ==> (#[trigger] info.outputs@[j]).name@ != info.primary_output@) ==> ({
            let area = used_screen(info)->Some_0;
            &&& area.x == info.outputs@[i].x
            &&& area.y == info.outputs@[i].y
            &&& area.width == info.outputs@[i].width
            &&& area.height == info.outputs@[i].height
        }),
        (forall|j: int|
            0 <= j < info.outputs@.len() ==> (#[trigger] info.outputs@[j]).name@
                != info.primary_output@) ==> ({
            let area = used_screen(info)->Some_0;
            &&& area.x == info.outputs@[0].x
            &&& area.y == info.outputs@[0].y
            &&& area.width == info.outputs@[0].width
            &&& area.height == info.outputs@[0].height
        }),
{
    lemma_screen_named(info, 0);
}

/// The other computer's screen counts with its size where it has one, and with
/// a common size else, which is said.
pub proof fn law_remote_size_is_never_nothing(area: Option<ScreenArea>)
    ensures
        size_of_remote(area).0.width > 0,
        size_of_remote(area).0.height > 0,
        size_of_remote(area).1 <==> (area is None || area->Some_0.width == 0
            || area->Some_0.height == 0),
        !size_of_remote(area).1 ==> size_of_remote(area).0.width == area->Some_0.width
            && size_of_remote(area).0.height == area->Some_0.height,
        size_of_remote(area).1 ==> size_of_remote(area).0.width == 1920
            && size_of_remote(area).0.height == 1080,
{
}

/// A wish for a backend, in whatever case it is written, is met by that backend
/// alone; one for none is met by none; and one that nothing is known of is
/// refused by its name. Only libei can be missing.
pub proof fn law_wished_backend_is_used(requested: Seq<char>, niri: bool, libei_available: bool)
    ensures
        ({
            let plan = planned(requested, niri, libei_available);
            let name = lowered(requested);
            &&& name == "hyprland"@ ==> (plan matches Ok(list) && list =~= seq![
                ReceiverBackend::Hyprland,
            ])
            &&& name == "uinput"@ ==> (plan matches Ok(list) && list =~= seq![
                ReceiverBackend::Uinput,
            ])
            &&& name == "libei"@ && libei_available ==> (plan matches Ok(list) && list =~= seq![
                ReceiverBackend::Libei,
            ])
            &&& name == "libei"@ && !libei_available ==> plan is Err
            &&& name == "log"@ || name == "mock"@ || name == "none"@ ==> (plan matches Ok(list)
                && list =~= seq![ReceiverBackend::LogOnly])
            &&& name == "auto"@ ==> (plan matches Ok(list) && list.contains(
                ReceiverBackend::Hyprland,
            ) && (list.contains(ReceiverBackend::Libei) <==> libei_available) && (list.contains(
                ReceiverBackend::Uinput,
            ) <==> niri))
            &&& name != "auto"@ && name != "hyprland"@ && name != "uinput"@ && name != "libei"@
                && name != "log"@ && name != "mock"@ && name != "none"@ ==> plan == Err::<
                Seq<ReceiverBackend>,
                PlanProblem,
            >(PlanProblem::Unsupported(name))
        }),
{
    broadcast use {lemma_holds_push, lemma_holds_empty};

    reveal_strlit("auto");
    reveal_strlit("hyprland");
    reveal_strlit("uinput");
    reveal_strlit("libei");
    reveal_strlit("log");
    reveal_strlit("mock");
    reveal_strlit("none");
    assert("auto"@[0] == 'a');
    assert("mock"@[0] == 'm');
    assert("none"@[0] == 'n');
    assert("log"@.len() == 3);
    assert("libei"@.len() == 5);
    assert("uinput"@.len() == 6);
    assert("hyprland"@.len() == 8);
    assert("auto"@.len() == 4);
    assert("mock"@.len() == 4);
    assert("none"@.len() == 4);
}

/// The cursor is asked to be as it is wished only where it is not, and nothing
/// more once the desktop has done so; in the end it is as it was found.
pub proof fn law_cursor_is_left_as_it_was_found(
    controller: HyprlandCursorController,
    invisible: bool,
)
    ensures
        controller.asking(invisible) is None <==> controller.current_invisible == invisible,
        controller.asking(true) matches Some(text) ==> text == "true"@,
        controller.asking(false) matches Some(text) ==> text == "false"@,
        controller.showing(invisible).asking(invisible) is None,
        controller.showing(invisible).asking(!invisible) is Some,
        controller.showing(invisible).original_invisible == controller.original_invisible,
        controller.showing(invisible).showing(
            controller.original_invisible,
        ).current_invisible == controller.original_invisible,
{
}

} // verus!
