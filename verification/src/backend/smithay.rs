use vstd::prelude::*;

verus! {

/// The smithay backend's bookkeeping: whether it was initialized and
/// whether the wayland display and the event loop were created.
pub struct SmithayBackend {
    initialized: bool,
    display_created: bool,
    event_loop_created: bool,
}

impl SmithayBackend {
    pub closed spec fn is_initialized(&self) -> bool {
        self.initialized
    }

    pub closed spec fn has_display(&self) -> bool {
        self.display_created
    }

    pub closed spec fn has_event_loop(&self) -> bool {
        self.event_loop_created
    }

    pub fn new() -> (b: SmithayBackend)
        ensures
            !b.is_initialized(),
            !b.has_display(),
            !b.has_event_loop(),
    {
        SmithayBackend { initialized: false, display_created: false, event_loop_created: false }
    }

    /// Records that the wayland display and the event loop exist and that the
    /// backend is initialized. Creating them is the caller's part: it has
    /// done so, and stopped on failure, before calling this.
    pub fn initialize(&mut self)
        ensures
            final(self).is_initialized(),
            final(self).has_display(),
            final(self).has_event_loop(),
    {
        self.display_created = true;
        self.event_loop_created = true;
        self.initialized = true;
    }

    /// The backend's name, which tells whether it was initialized.
    pub fn name(&self) -> (n: &'static str)
        ensures
            n@ == (if self.is_initialized() {
                "smithay-bootstrap"@
            } else {
                "smithay-bootstrap(uninitialized)"@
            }),
    {
        if self.initialized {
            "smithay-bootstrap"
        } else {
            "smithay-bootstrap(uninitialized)"
        }
    }

    /// Whether the display and the event loop are ready.
    pub fn summary(&self) -> (s: &'static str)
        ensures
            s@ == (if self.is_initialized() && self.has_display() && self.has_event_loop() {
                "display+event-loop ready"@
            } else {
                "not ready"@
            }),
    {
        if self.initialized && self.display_created && self.event_loop_created {
            "display+event-loop ready"
        } else {
            "not ready"
        }
    }
}

/// `c` is an ASCII decimal digit.
pub open spec fn is_digit(c: char) -> bool {
    '0' <= c && c <= '9'
}

/// A local wall-clock reading, field by field.
#[derive(Debug, Clone, Copy)]
pub struct ClockReading {
    pub hour: u32,
    pub minute: u32,
    pub second: u32,
    /// Nanoseconds since the whole second; 1,000,000,000 and above mark a
    /// leap second.
    pub nanosecond: u32,
}

/// The ranges chrono's `Timelike` documents: hour 0-23, minute 0-59,
/// second 0-59, nanosecond below 2,000,000,000, and a leap second
/// (nanosecond from 1,000,000,000) only in second 59.
pub open spec fn valid_reading(r: ClockReading) -> bool {
    &&& r.hour < 24
    &&& r.minute < 60
    &&& r.second < 60
    &&& r.nanosecond < 2_000_000_000
    &&& r.nanosecond >= 1_000_000_000 ==> r.second == 59
}

/// The machine's local wall-clock time: `std::time::SystemTime::now()`
/// converted by chrono's `DateTime::<Local>::from` (which handles a clock
/// before 1970 as well as after, and whose calendar reaches far beyond any
/// time the machine's clock can hold), read through chrono's `Timelike`
/// accessors. The contract claims only the ranges chrono documents for
/// those accessors; which time it is depends on the machine.
#[verifier::external_body]
fn local_clock_reading() -> (reading: ClockReading)
    ensures
        valid_reading(reading),
{
    let now = chrono::DateTime::<chrono::Local>::from(std::time::SystemTime::now());
    ClockReading {
        hour: chrono::Timelike::hour(&now),
        minute: chrono::Timelike::minute(&now),
        second: chrono::Timelike::second(&now),
        nanosecond: chrono::Timelike::nanosecond(&now),
    }
}

/// The second a clock shows: 60 during a leap second.
pub open spec fn shown_second(r: ClockReading) -> int {
    r.second + r.nanosecond / 1_000_000_000
}

/// The decimal digit `d` as a character.
pub open spec fn digit_char(d: int) -> char {
    ('0' as int + d) as char
}

/// `v` (below 100) as two decimal digits, zero-padded.
pub open spec fn two_digits(v: int) -> Seq<char> {
    seq![digit_char(v / 10), digit_char(v % 10)]
}

/// The time `h:m:s` written `HH:MM:SS`.
pub open spec fn clock_text_of(h: int, m: int, s: int) -> Seq<char> {
    two_digits(h) + seq![':'] + two_digits(m) + seq![':'] + two_digits(s)
}

/// A clock text reads back: it is eight characters `HH:MM:SS`, each pair
/// of digits the decimal value it was written from, zero-padded.
pub proof fn law_clock_text_reads_back(h: int, m: int, s: int)
    requires
        0 <= h < 100,
        0 <= m < 100,
        0 <= s < 100,
    ensures
        ({
            let t = clock_text_of(h, m, s);
            &&& t.len() == 8
            &&& t[2] == ':' && t[5] == ':'
            &&& forall|i: int| 0 <= i < 8 && i != 2 && i != 5 ==> is_digit(#[trigger] t[i])
            &&& (t[0] as int - '0' as int) * 10 + (t[1] as int - '0' as int) == h
            &&& (t[3] as int - '0' as int) * 10 + (t[4] as int - '0' as int) == m
            &&& (t[6] as int - '0' as int) * 10 + (t[7] as int - '0' as int) == s
        }),
{
    let t = clock_text_of(h, m, s);
    assert(t =~= seq![
        digit_char(h / 10),
        digit_char(h % 10),
        ':',
        digit_char(m / 10),
        digit_char(m % 10),
        ':',
        digit_char(s / 10),
        digit_char(s % 10),
    ]);
}

/// The second a clock shows is the reading's second, or 60 during a leap
/// second.
pub proof fn law_shown_second(r: ClockReading)
    requires
        valid_reading(r),
    ensures
        r.nanosecond < 1_000_000_000 ==> shown_second(r) == r.second,
        r.nanosecond >= 1_000_000_000 ==> shown_second(r) == 60,
{
}

/// The digit `d` as a one-character string.
fn digit_text(d: u32) -> (t: &'static str)
    requires
        d < 10,
    ensures
        t@ == seq![digit_char(d as int)],
{
    proof {
        reveal_strlit("0");
        reveal_strlit("1");
        reveal_strlit("2");
        reveal_strlit("3");
        reveal_strlit("4");
        reveal_strlit("5");
        reveal_strlit("6");
        reveal_strlit("7");
        reveal_strlit("8");
        reveal_strlit("9");
    }
    if d == 0 {
        "0"
    } else if d == 1 {
        "1"
    } else if d == 2 {
        "2"
    } else if d == 3 {
        "3"
    } else if d == 4 {
        "4"
    } else if d == 5 {
        "5"
    } else if d == 6 {
        "6"
    } else if d == 7 {
        "7"
    } else if d == 8 {
        "8"
    } else {
        "9"
    }
}

/// Appends `v` (below 100) to `text` as two digits.
fn push_two_digits(text: &mut String, v: u32)
    requires
        v < 100,
    ensures
        final(text)@ == old(text)@ + two_digits(v as int),
{
    text.append(digit_text(v / 10));
    text.append(digit_text(v % 10));
}

/// The reading `reading` written `HH:MM:SS`, as chrono's `%H:%M:%S` writes
/// it (a leap second shows as second 60).
pub fn clock_text(reading: ClockReading) -> (text: String)
    requires
        valid_reading(reading),
    ensures
        text@ == clock_text_of(reading.hour as int, reading.minute as int, shown_second(reading)),
{
    let shown = reading.second + reading.nanosecond / 1_000_000_000;
    let mut text = String::new();
    proof {
        reveal_strlit(":");
    }
    push_two_digits(&mut text, reading.hour);
    text.append(":");
    push_two_digits(&mut text, reading.minute);
    text.append(":");
    push_two_digits(&mut text, shown);
    proof {
        assert(text@ =~= clock_text_of(reading.hour as int, reading.minute as int, shown_second(reading)));
    }
    text
}

/// `c` has Unicode's `White_Space` property (PropList.txt): U+0009 to
/// U+000D, U+0020, U+0085, U+00A0, U+1680, U+2000 to U+200A, U+2028,
/// U+2029, U+202F, U+205F and U+3000.
pub open spec fn is_white_space(c: char) -> bool {
    let v = c as int;
    ||| 0x9 <= v <= 0xD
    ||| v == 0x20
    ||| v == 0x85
    ||| v == 0xA0
    ||| v == 0x1680
    ||| 0x2000 <= v <= 0x200A
    ||| v == 0x2028
    ||| v == 0x2029
    ||| v == 0x202F
    ||| v == 0x205F
    ||| v == 0x3000
}

/// `s` without its leading whitespace.
pub open spec fn trim_start_chars(s: Seq<char>) -> Seq<char>
    decreases s.len(),
{
    if s.len() > 0 && is_white_space(s[0]) {
        trim_start_chars(s.drop_first())
    } else {
        s
    }
}

/// `s` without its trailing whitespace.
pub open spec fn trim_end_chars(s: Seq<char>) -> Seq<char>
    decreases s.len(),
{
    if s.len() > 0 && is_white_space(s.last()) {
        trim_end_chars(s.drop_last())
    } else {
        s
    }
}

/// `s` without its leading and trailing whitespace.
pub open spec fn trimmed(s: Seq<char>) -> Seq<char> {
    trim_end_chars(trim_start_chars(s))
}

/// `str::trim`: its documentation gives the result as `s` with leading and
/// trailing whitespace removed, whitespace being what has Unicode's
/// `White_Space` property.
#[verifier::external_body]
fn trim_text(s: &str) -> (t: &str)
    ensures
        t@ == trimmed(s@),
{
    s.trim()
}

/// The value of a run of decimal digits.
pub open spec fn digits_value(s: Seq<char>) -> int
    decreases s.len(),
{
    if s.len() == 0 {
        0
    } else {
        digits_value(s.drop_last()) * 10 + (s.last() as int - '0' as int)
    }
}

/// `s` without a leading `+` sign, if it has one.
pub open spec fn unsigned_digits(s: Seq<char>) -> Seq<char> {
    if s.len() > 0 && s[0] == '+' {
        s.drop_first()
    } else {
        s
    }
}

/// Every character of `s` is an ASCII digit.
pub open spec fn all_digits(s: Seq<char>) -> bool {
    forall|i: int| 0 <= i < s.len() ==> is_digit(#[trigger] s[i])
}

/// What `str::parse::<u32>` gives for `s`: an optional `+` sign followed by
/// at least one ASCII digit and nothing else, with a value that fits in a
/// `u32`; anything else is an error.
pub open spec fn decimal_u32(s: Seq<char>) -> Option<u32> {
    let digits = unsigned_digits(s);
    if digits.len() > 0 && all_digits(digits) && digits_value(digits) <= u32::MAX {
        Some(digits_value(digits) as u32)
    } else {
        None
    }
}

/// A run of digits is worth at least as much as any of its prefixes.
proof fn lemma_digits_value_grows(s: Seq<char>, k: int)
    requires
        0 <= k <= s.len(),
        forall|i: int| 0 <= i < s.len() ==> is_digit(#[trigger] s[i]),
    ensures
        digits_value(s.subrange(0, k)) <= digits_value(s),
        digits_value(s) >= 0,
    decreases s.len(),
{
    if s.len() > 0 {
        let init = s.drop_last();
        if k < s.len() {
            lemma_digits_value_grows(init, k);
            assert(init.subrange(0, k) =~= s.subrange(0, k));
        } else {
            assert(s.subrange(0, k) =~= s);
            lemma_digits_value_grows(init, 0);
        }
    }
}

/// Reads `s` as `str::parse::<u32>` does: an optional `+` sign, then at
/// least one ASCII digit and nothing else, with a value that fits in a `u32`.
pub fn parse_u32(s: &str) -> (r: Option<u32>)
    ensures
        r == decimal_u32(s@),
{
    let n = s.unicode_len();
    let start: usize = if n > 0 && s.get_char(0) == '+' {
        1
    } else {
        0
    };
    let ghost digits = s@.subrange(start as int, n as int);
    proof {
        if start == 1 {
            assert(digits =~= s@.drop_first());
        } else {
            assert(digits =~= s@);
        }
    }
    if start == n {
        return None;
    }
    let mut value: u64 = 0;
    let mut i: usize = start;
    proof {
        assert(digits.subrange(0, 0) =~= Seq::<char>::empty());
    }
    while i < n
        invariant
            start <= i <= n,
            n == s@.len(),
            digits == s@.subrange(start as int, n as int),
            digits == unsigned_digits(s@),
            forall|j: int| 0 <= j < i - start ==> is_digit(#[trigger] digits[j]),
            value == digits_value(digits.subrange(0, i - start)),
            value <= u32::MAX,
        decreases n - i,
    {
        let c = s.get_char(i);
        let code = c as u32;
        proof {
            assert(digits[i - start] == c);
            assert(code as int == c as int);
            assert(is_digit(c) <==> (48 <= code && code <= 57));
        }
        if code < 48 || code > 57 {
            proof {
                assert(!is_digit(digits[i - start]));
                assert(!all_digits(digits));
            }
            return None;
        }
        let next = value * 10 + (code - 48) as u64;
        proof {
            let k = i - start;
            assert(digits.subrange(0, k + 1).drop_last() =~= digits.subrange(0, k));
            assert(digits.subrange(0, k + 1).last() == c);
        }
        if next > u32::MAX as u64 {
            proof {
                assert(next == digits_value(digits.subrange(0, i - start + 1)));
                if all_digits(digits) {
                    lemma_digits_value_grows(digits, i - start + 1);
                    assert(digits_value(digits) > u32::MAX);
                }
            }
            return None;
        }
        value = next;
        i = i + 1;
    }
    proof {
        assert(digits.subrange(0, n - start) =~= digits);
    }
    Some(value as u32)
}

/// The user id assumed when `id -u` gives nothing usable.
pub const FALLBACK_UID: u32 = 1000;

/// The user id that already trimmed output of `id -u` names: its number,
/// or `FALLBACK_UID` if it is not one.
pub open spec fn uid_value(trimmed: Seq<char>) -> u32 {
    match decimal_u32(trimmed) {
        Some(uid) => uid,
        None => FALLBACK_UID,
    }
}

/// The user id that the trimmed output `trimmed` of `id -u` names.
pub fn uid_from_trimmed(trimmed: &str) -> (uid: u32)
    ensures
        uid == uid_value(trimmed@),
{
    match parse_u32(trimmed) {
        Some(uid) => uid,
        None => FALLBACK_UID,
    }
}

/// The user id that the output of `id -u` names, if there was readable
/// output: the number it holds once trimmed, else `FALLBACK_UID`.
pub fn uid_from_id_output(text: Option<&str>) -> (uid: u32)
    ensures
        uid == match text {
            Some(t) => uid_value(trimmed(t@)),
            None => FALLBACK_UID,
        },
{
    match text {
        Some(t) => uid_from_trimmed(trim_text(t)),
        None => FALLBACK_UID,
    }
}

/// The nested window's title for the wayland socket `socket_name` at the
/// wall-clock time `clock`.
pub open spec fn window_title_text(socket_name: Seq<char>, clock: Seq<char>) -> Seq<char> {
    "CubixWM | "@ + socket_name + " | "@ + clock
}

/// The nested window's title for `socket_name` at the clock reading `clock`.
pub fn compose_window_title(socket_name: &str, clock: &str) -> (title: String)
    ensures
        title@ == window_title_text(socket_name@, clock@),
{
    let mut title = "CubixWM | ".to_owned();
    title.append(socket_name);
    title.append(" | ");
    title.append(clock);
    title
}

/// The nested window's title for `socket_name` at the clock reading
/// `reading`: the reading's own hour (on the 24-hour clock), minute and
/// shown second.
pub fn window_title_at(socket_name: &str, reading: ClockReading) -> (title: String)
    requires
        valid_reading(reading),
    ensures
        title@ == window_title_text(
            socket_name@,
            clock_text_of(reading.hour as int, reading.minute as int, shown_second(reading)),
        ),
{
    let clock = clock_text(reading);
    compose_window_title(socket_name, clock.as_str())
}

/// The nested window's title for `socket_name`, stamped with the current
/// local time: the title `window_title_at` gives for some valid clock
/// reading (which one depends on when it is called).
pub fn window_title(socket_name: &str) -> (title: String)
    ensures
        exists|r: ClockReading|
            valid_reading(r) && title@ == window_title_text(
                socket_name@,
                clock_text_of(r.hour as int, r.minute as int, shown_second(r)),
            ),
        exists|h: int, m: int, sec: int|
            0 <= h < 24 && 0 <= m < 60 && 0 <= sec <= 60 && title@ == window_title_text(
                socket_name@,
                clock_text_of(h, m, sec),
            ),
{
    let reading = local_clock_reading();
    let title = window_title_at(socket_name, reading);
    proof {
        assert(0 <= shown_second(reading) <= 60);
    }
    title
}

/// The kinds of input the nested compositor tells apart.
#[derive(Debug, Clone, Copy, PartialEq, Eq, Structural)]
pub enum NestedInput {
    /// A key was pressed or released.
    Key,
    /// The pointer moved to an absolute position.
    PointerMotion,
    /// Any other input.
    Other,
}

/// What the nested compositor does with an input.
#[derive(Debug, Clone, Copy, PartialEq, Eq, Structural)]
pub enum NestedReaction {
    /// Hand the key to the seat's keyboard, which forwards it to the focused surface.
    ForwardKey,
    /// Give the keyboard focus to the first toplevel surface.
    FocusFirstToplevel,
    /// Nothing.
    Ignore,
}

/// Keys go to the keyboard; pointer motion focuses the first toplevel when
/// there is one; everything else is ignored.
pub fn react_to_input(input: NestedInput, has_toplevel: bool) -> (r: NestedReaction)
    ensures
        r == match input {
            NestedInput::Key => NestedReaction::ForwardKey,
            NestedInput::PointerMotion => if has_toplevel {
                NestedReaction::FocusFirstToplevel
            } else {
                NestedReaction::Ignore
            },
            NestedInput::Other => NestedReaction::Ignore,
        },
{
    match input {
        NestedInput::Key => NestedReaction::ForwardKey,
        NestedInput::PointerMotion => if has_toplevel {
            NestedReaction::FocusFirstToplevel
        } else {
            NestedReaction::Ignore
        },
        NestedInput::Other => NestedReaction::Ignore,
    }
}

impl Default for SmithayBackend {
    fn default() -> (b: SmithayBackend)
        ensures
            !b.is_initialized(),
            !b.has_display(),
            !b.has_event_loop(),
    {
        SmithayBackend::new()
    }
}

} // verus!
