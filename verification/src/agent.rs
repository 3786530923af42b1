//! The agent protocol: a client sends one command per line (`press a 200`,
//! `frames 60`, `read ff40 12`, ...) and reads one line back. This module
//! decides what a line asks for, and computes the data that answers carry:
//! RGB frames in base64 or as a PPM image, the listed sprites and a score
//! kept in BCD.

use vstd::prelude::*;
use vstd::string::StrSliceExecFns;

use crate::emulator::session::OamEntry;
use crate::input::JoypadButton;
use crate::platform::{all_ascii, ascii_lowercase, decode_lossy, lowercased, split_words, to_lowercase, whitespace_words};

verus! {

// ---------------------------------------------------------------------------
// Words and numbers
// ---------------------------------------------------------------------------

/// Whether two texts are the same.
pub fn text_is(text: &str, expected: &str) -> (same: bool)
    ensures
        same == (text@ == expected@),
{
    let n = text.unicode_len();
    let m = expected.unicode_len();
    if n != m {
        return false;
    }
    let mut i: usize = 0;
    while i < n
        invariant
            n == text@.len(),
            m == expected@.len(),
            n == m,
            i <= n,
            forall|j: int| 0 <= j < i ==> text@[j] == expected@[j],
        decreases n - i,
    {
        if text.get_char(i) != expected.get_char(i) {
            assert(text@[i as int] != expected@[i as int]);
            return false;
        }
        i = i + 1;
    }
    assert(text@ =~= expected@);
    true
}

/// The value of digit `c` in base `radix` (at most 16), or `None`.
pub open spec fn digit_of(c: char, radix: nat) -> Option<nat> {
    let v: nat = if '0' <= c <= '9' {
        (c as nat - '0' as nat) as nat
    } else if 'a' <= c <= 'f' {
        (c as nat - 'a' as nat + 10) as nat
    } else if 'A' <= c <= 'F' {
        (c as nat - 'A' as nat + 10) as nat
    } else {
        16
    };
    if v < radix {
        Some(v)
    } else {
        None
    }
}

/// Whether every character of `ds` is a digit of `radix`.
pub open spec fn all_digits(ds: Seq<char>, radix: nat) -> bool {
    forall|i: int| 0 <= i < ds.len() ==> #[trigger] digit_of(ds[i], radix) is Some
}

/// The value of a digit, zero for anything else.
pub open spec fn digit_or_zero(c: char, radix: nat) -> nat {
    match digit_of(c, radix) {
        Some(d) => d,
        None => 0,
    }
}

/// The number the digits `ds` write in base `radix`.
pub open spec fn digits_value(ds: Seq<char>, radix: nat) -> nat
    decreases ds.len(),
{
    if ds.len() == 0 {
        0
    } else {
        digits_value(ds.drop_last(), radix) * radix + digit_or_zero(ds.last(), radix)
    }
}

/// `text` without the `+` it may begin with.
pub open spec fn unsigned_digits(text: Seq<char>) -> Seq<char> {
    if text.len() > 0 && text[0] == '+' {
        text.drop_first()
    } else {
        text
    }
}

/// The unsigned number `text` writes in base `radix`, as Rust's integer
/// parsing reads it: an optional `+`, then one or more digits, the value
/// at most `max`; `None` for anything else.
pub open spec fn parsed_unsigned(text: Seq<char>, radix: nat, max: nat) -> Option<nat> {
    let ds = unsigned_digits(text);
    if ds.len() > 0 && all_digits(ds, radix) && digits_value(ds, radix) <= max {
        Some(digits_value(ds, radix))
    } else {
        None
    }
}

fn digit_value(c: char, radix: u64) -> (d: Option<u64>)
    requires
        radix == 10 || radix == 16,
    ensures
        d matches Some(v) ==> digit_of(c, radix as nat) == Some(v as nat) && v < radix,
        d is None ==> digit_of(c, radix as nat) is None,
{
    let v: u64 = if '0' <= c && c <= '9' {
        (c as u32 - '0' as u32) as u64
    } else if 'a' <= c && c <= 'f' {
        (c as u32 - 'a' as u32 + 10) as u64
    } else if 'A' <= c && c <= 'F' {
        (c as u32 - 'A' as u32 + 10) as u64
    } else {
        16
    };
    if v < radix {
        Some(v)
    } else {
        None
    }
}

proof fn lemma_digits_push(ds: Seq<char>, c: char, radix: nat)
    ensures
        digits_value(ds.push(c), radix) == digits_value(ds, radix) * radix + digit_or_zero(c, radix),
{
    assert(ds.push(c).drop_last() =~= ds);
}

/// `acc` can take one more digit `d` without passing `max` exactly when it
/// is at most `(max - d) / radix`.
proof fn lemma_step_bound(acc: int, d: int, radix: int, max: int)
    requires
        radix > 0,
        0 <= acc,
        0 <= d <= max,
    ensures
        acc <= (max - d) / radix <==> acc * radix + d <= max,
{
    let q = (max - d) / radix;
    let r = (max - d) % radix;
    assert((max - d) == q * radix + r && 0 <= r < radix) by (nonlinear_arith)
        requires
            radix > 0,
            q == (max - d) / radix,
            r == (max - d) % radix,
            d <= max,
    ;
    if acc <= q {
        assert(acc * radix <= q * radix) by (nonlinear_arith)
            requires
                acc <= q,
                radix > 0,
        ;
    } else {
        assert(acc * radix >= q * radix + radix) by (nonlinear_arith)
            requires
                acc >= q + 1,
                radix > 0,
        ;
    }
}

/// A run of digits is worth at least as much as any prefix of it.
proof fn lemma_prefix_value_grows(ds: Seq<char>, k: int, radix: nat)
    requires
        0 <= k <= ds.len(),
        radix > 0,
    ensures
        digits_value(ds.subrange(0, k), radix) <= digits_value(ds, radix),
    decreases ds.len() - k,
{
    if k < ds.len() {
        lemma_prefix_value_grows(ds, k + 1, radix);
        let prefix = ds.subrange(0, k);
        assert(ds.subrange(0, k + 1) =~= prefix.push(ds[k]));
        lemma_digits_push(prefix, ds[k], radix);
        let v = digits_value(prefix, radix);
        assert(v <= v * radix) by (nonlinear_arith)
            requires
                radix > 0,
        ;
    } else {
        assert(ds.subrange(0, k) =~= ds);
    }
}

/// Reads the unsigned number `text` writes in base `radix` (10 or 16), up
/// to `max`: `parsed_unsigned`.
pub fn parse_unsigned(text: &str, radix: u64, max: u64) -> (value: Option<u64>)
    requires
        radix == 10 || radix == 16,
    ensures
        value is None <==> parsed_unsigned(text@, radix as nat, max as nat) is None,
        value matches Some(v) ==> parsed_unsigned(text@, radix as nat, max as nat) == Some(v as nat),
{
    let n = text.unicode_len();
    let mut start: usize = 0;
    if n > 0 && text.get_char(0) == '+' {
        start = 1;
    }
    let ghost ds = unsigned_digits(text@);
    assert(ds =~= text@.subrange(start as int, n as int));
    if start >= n {
        return None;
    }
    let mut acc: u64 = 0;
    let mut i: usize = start;
    assert(ds.subrange(0, 0) =~= Seq::<char>::empty());
    while i < n
        invariant
            n == text@.len(),
            start <= i <= n,
            start < n,
            ds == unsigned_digits(text@),
            ds =~= text@.subrange(start as int, n as int),
            ds.len() == n - start,
            radix == 10 || radix == 16,
            all_digits(ds.subrange(0, i - start), radix as nat),
            acc as nat == digits_value(ds.subrange(0, i - start), radix as nat),
            acc <= max,
        decreases n - i,
    {
        let c = text.get_char(i);
        assert(ds[i - start] == c);
        let d = match digit_value(c, radix) {
            Some(d) => d,
            None => {
                assert(!all_digits(ds, radix as nat)) by {
                    assert(digit_of(ds[i - start], radix as nat) is None);
                }
                assert(parsed_unsigned(text@, radix as nat, max as nat) is None);
                return None;
            },
        };
        let ghost before = ds.subrange(0, i - start);
        assert(ds.subrange(0, i + 1 - start) =~= before.push(c));
        proof {
            lemma_digits_push(before, c, radix as nat);
        }
        if d > max || acc > (max - d) / radix {
            proof {
                if d <= max {
                    lemma_step_bound(acc as int, d as int, radix as int, max as int);
                } else {
                    assert(acc as nat * radix as nat >= 0) by (nonlinear_arith);
                }
                lemma_prefix_value_grows(ds, (i + 1 - start) as int, radix as nat);
                assert(digits_value(ds.subrange(0, i + 1 - start), radix as nat) == acc * radix + d);
                assert(acc * radix + d > max);
                assert(digits_value(ds, radix as nat) > max);
                assert(parsed_unsigned(text@, radix as nat, max as nat) is None);
            }
            return None;
        }
        proof {
            lemma_step_bound(acc as int, d as int, radix as int, max as int);
        }
        acc = acc * radix + d;
        i = i + 1;
        assert(all_digits(ds.subrange(0, i - start), radix as nat)) by {
            assert forall|j: int| 0 <= j < i - start implies #[trigger] digit_of(
                ds.subrange(0, i - start)[j],
                radix as nat,
            ) is Some by {
                if j < i - 1 - start {
                    assert(ds.subrange(0, i - start)[j] == before[j]);
                }
            }
        }
    }
    assert(ds.subrange(0, n - start) =~= ds);
    Some(acc)
}

/// `text` without its leading `0x` prefixes (any number of them).
pub open spec fn without_hex_prefixes(text: Seq<char>) -> Seq<char>
    decreases text.len(),
{
    if text.len() >= 2 && text[0] == '0' && text[1] == 'x' {
        without_hex_prefixes(text.subrange(2, text.len() as int))
    } else {
        text
    }
}

/// Strips the leading `0x` prefixes of `text`: `without_hex_prefixes`.
pub fn strip_hex_prefixes(text: &str) -> (rest: &str)
    ensures
        rest@ == without_hex_prefixes(text@),
{
    let n = text.unicode_len();
    let mut i: usize = 0;
    assert(text@.subrange(0, n as int) =~= text@);
    while i < n && n - i >= 2 && text.get_char(i) == '0' && text.get_char(i + 1) == 'x'
        invariant
            n == text@.len(),
            i <= n,
            without_hex_prefixes(text@) == without_hex_prefixes(text@.subrange(i as int, n as int)),
        decreases n - i,
    {
        let ghost rest = text@.subrange(i as int, n as int);
        assert(rest.subrange(2, rest.len() as int) =~= text@.subrange(i + 2, n as int));
        i = i + 2;
    }
    let rest = text.substring_char(i, n);
    proof {
        let r = text@.subrange(i as int, n as int);
        assert(!(r.len() >= 2 && r[0] == '0' && r[1] == 'x'));
    }
    rest
}

// ---------------------------------------------------------------------------
// Commands
// ---------------------------------------------------------------------------

/// The button a name stands for, whatever its case.
pub open spec fn button_named(name: Seq<char>) -> Option<JoypadButton> {
    button_of_lower(lowercased(name))
}

/// The button a name already in lower case stands for.
pub open spec fn button_of_lower(n: Seq<char>) -> Option<JoypadButton> {
    if n == "a"@ {
        Some(JoypadButton::A)
    } else if n == "b"@ {
        Some(JoypadButton::B)
    } else if n == "start"@ {
        Some(JoypadButton::Start)
    } else if n == "select"@ {
        Some(JoypadButton::Select)
    } else if n == "up"@ {
        Some(JoypadButton::Up)
    } else if n == "down"@ {
        Some(JoypadButton::Down)
    } else if n == "left"@ {
        Some(JoypadButton::Left)
    } else if n == "right"@ {
        Some(JoypadButton::Right)
    } else {
        None
    }
}

/// The button `name` stands for: `button_named`.
pub fn parse_button(name: &str) -> (button: Option<JoypadButton>)
    ensures
        button == button_named(name@),
        all_ascii(name@) ==> button == button_of_lower(ascii_lowercase(name@)),
{
    let lower = to_lowercase(name);
    let n = lower.as_str();
    if text_is(n, "a") {
        Some(JoypadButton::A)
    } else if text_is(n, "b") {
        Some(JoypadButton::B)
    } else if text_is(n, "start") {
        Some(JoypadButton::Start)
    } else if text_is(n, "select") {
        Some(JoypadButton::Select)
    } else if text_is(n, "up") {
        Some(JoypadButton::Up)
    } else if text_is(n, "down") {
        Some(JoypadButton::Down)
    } else if text_is(n, "left") {
        Some(JoypadButton::Left)
    } else if text_is(n, "right") {
        Some(JoypadButton::Right)
    } else {
        None
    }
}

/// What a line asks of the server. `Hold` keeps its duration as written:
/// it is a number of seconds with a fraction, read by the caller.
#[derive(Clone, Debug, PartialEq, Eq)]
pub enum AgentCommand {
    Empty,
    Screenshot,
    FrameBytes,
    GameInfo,
    State,
    Status,
    Read { address: u16, count: u16 },
    ReadUsage,
    Press { button: JoypadButton, millis: u64 },
    PressUsage,
    Hold { button: JoypadButton, seconds: Option<String> },
    HoldUsage,
    Down { button: JoypadButton },
    DownUsage,
    Release { button: JoypadButton },
    ReleaseUsage,
    Frames { count: u64 },
    Save { slot: u8 },
    Load { slot: u8 },
    Help,
    Unknown { name: String },
}

/// Word `i` read as a decimal number up to `max`, or `default` where the
/// word is missing or is not such a number.
pub open spec fn decimal_arg(words: Seq<Seq<char>>, i: int, default: nat, max: nat) -> nat {
    if i < words.len() {
        match parsed_unsigned(words[i], 10, max) {
            Some(v) => v,
            None => default,
        }
    } else {
        default
    }
}

/// The button word 1 names, if there is one.
pub open spec fn button_arg(words: Seq<Seq<char>>) -> Option<JoypadButton> {
    if words.len() > 1 {
        button_named(words[1])
    } else {
        None
    }
}

/// The address word 1 gives in hexadecimal (after any `0x`), 0 where it
/// gives none.
pub open spec fn hex_address_arg(words: Seq<Seq<char>>) -> u16 {
    match parsed_unsigned(without_hex_prefixes(words[1]), 16, 0xffff) {
        Some(v) => v as u16,
        None => 0u16,
    }
}

/// `seconds` is word 2 as written, or nothing where there is no word 2.
pub open spec fn seconds_word(seconds: Option<String>, words: Seq<Seq<char>>) -> bool {
    if words.len() > 2 {
        seconds is Some && seconds->0@ == words[2]
    } else {
        seconds is None
    }
}

/// `cmd` is what the words of a line ask for. `shared` is the server that
/// runs beside a window: it advances four frames (not 60) where `frames`
/// gives no count.
pub open spec fn command_of(cmd: AgentCommand, words: Seq<Seq<char>>, shared: bool) -> bool {
    if words.len() == 0 {
        cmd is Empty
    } else {
        let w = words[0];
        if w == "screenshot"@ {
            cmd is Screenshot
        } else if w == "framebytes"@ {
            cmd is FrameBytes
        } else if w == "gameinfo"@ || w == "features"@ {
            cmd is GameInfo
        } else if w == "state"@ {
            cmd is State
        } else if w == "status"@ {
            cmd is Status
        } else if w == "read"@ {
            if words.len() > 1 {
                cmd == AgentCommand::Read {
                    address: hex_address_arg(words),
                    count: decimal_arg(words, 2, 1, 0xffff) as u16,
                }
            } else {
                cmd is ReadUsage
            }
        } else if w == "press"@ {
            match button_arg(words) {
                Some(b) => cmd == AgentCommand::Press {
                    button: b,
                    millis: decimal_arg(words, 2, 100, 0xffff_ffff_ffff_ffff) as u64,
                },
                None => cmd is PressUsage,
            }
        } else if w == "hold"@ {
            match button_arg(words) {
                Some(b) => cmd matches AgentCommand::Hold { button, seconds } && button == b
                    && seconds_word(seconds, words),
                None => cmd is HoldUsage,
            }
        } else if w == "down"@ {
            match button_arg(words) {
                Some(b) => cmd == AgentCommand::Down { button: b },
                None => cmd is DownUsage,
            }
        } else if w == "release"@ || w == "up"@ {
            match button_arg(words) {
                Some(b) => cmd == AgentCommand::Release { button: b },
                None => cmd is ReleaseUsage,
            }
        } else if w == "frames"@ {
            cmd == AgentCommand::Frames {
                count: decimal_arg(words, 1, if shared { 4 } else { 60 }, 0xffff_ffff_ffff_ffff) as u64,
            }
        } else if w == "save"@ {
            cmd == AgentCommand::Save { slot: decimal_arg(words, 1, 1, 0xff) as u8 }
        } else if w == "load"@ {
            cmd == AgentCommand::Load { slot: decimal_arg(words, 1, 1, 0xff) as u8 }
        } else if w == "help"@ {
            cmd is Help
        } else {
            cmd matches AgentCommand::Unknown { name } && name@ == w
        }
    }
}

fn decimal_word(words: &Vec<String>, i: usize, default: u64, max: u64) -> (value: u64)
    requires
        default <= max,
    ensures
        value as nat == decimal_arg(words@.map_values(|w: String| w@), i as int, default as nat, max as nat),
        value <= max,
{
    let ghost views = words@.map_values(|w: String| w@);
    if i < words.len() {
        assert(views[i as int] == words@[i as int]@);
        match parse_unsigned(words[i].as_str(), 10, max) {
            Some(v) => v,
            None => default,
        }
    } else {
        default
    }
}

fn button_word(words: &Vec<String>) -> (button: Option<JoypadButton>)
    ensures
        button == button_arg(words@.map_values(|w: String| w@)),
{
    let ghost views = words@.map_values(|w: String| w@);
    if words.len() > 1 {
        assert(views[1] == words@[1]@);
        parse_button(words[1].as_str())
    } else {
        None
    }
}

/// The command the words of a line give: `command_of`.
pub fn command_from_words(words: &Vec<String>, shared: bool) -> (cmd: AgentCommand)
    ensures
        command_of(cmd, words@.map_values(|w: String| w@), shared),
{
    let ghost views = words@.map_values(|w: String| w@);
    if words.len() == 0 {
        return AgentCommand::Empty;
    }
    let w = words[0].as_str();
    assert(views[0] == w@);
    if text_is(w, "screenshot") {
        AgentCommand::Screenshot
    } else if text_is(w, "framebytes") {
        AgentCommand::FrameBytes
    } else if text_is(w, "gameinfo") || text_is(w, "features") {
        AgentCommand::GameInfo
    } else if text_is(w, "state") {
        AgentCommand::State
    } else if text_is(w, "status") {
        AgentCommand::Status
    } else if text_is(w, "read") {
        if words.len() > 1 {
            assert(views[1] == words@[1]@);
            let digits = strip_hex_prefixes(words[1].as_str());
            let address = match parse_unsigned(digits, 16, 0xffff) {
                Some(v) => v as u16,
                None => 0,
            };
            let count = decimal_word(words, 2, 1, 0xffff) as u16;
            AgentCommand::Read { address, count }
        } else {
            AgentCommand::ReadUsage
        }
    } else if text_is(w, "press") {
        match button_word(words) {
            Some(button) => AgentCommand::Press {
                button,
                millis: decimal_word(words, 2, 100, 0xffff_ffff_ffff_ffff),
            },
            None => AgentCommand::PressUsage,
        }
    } else if text_is(w, "hold") {
        match button_word(words) {
            Some(button) => {
                let seconds = if words.len() > 2 {
                    assert(views[2] == words@[2]@);
                    Some(words[2].clone())
                } else {
                    None
                };
                AgentCommand::Hold { button, seconds }
            },
            None => AgentCommand::HoldUsage,
        }
    } else if text_is(w, "down") {
        match button_word(words) {
            Some(button) => AgentCommand::Down { button },
            None => AgentCommand::DownUsage,
        }
    } else if text_is(w, "release") || text_is(w, "up") {
        match button_word(words) {
            Some(button) => AgentCommand::Release { button },
            None => AgentCommand::ReleaseUsage,
        }
    } else if text_is(w, "frames") {
        let default: u64 = if shared {
            4
        } else {
            60
        };
        AgentCommand::Frames { count: decimal_word(words, 1, default, 0xffff_ffff_ffff_ffff) }
    } else if text_is(w, "save") {
        AgentCommand::Save { slot: decimal_word(words, 1, 1, 0xff) as u8 }
    } else if text_is(w, "load") {
        AgentCommand::Load { slot: decimal_word(words, 1, 1, 0xff) as u8 }
    } else if text_is(w, "help") {
        AgentCommand::Help
    } else {
        AgentCommand::Unknown { name: words[0].clone() }
    }
}

/// The command on `line`, split into words at whitespace.
pub fn parse_agent_command(line: &str, shared: bool) -> (cmd: AgentCommand)
    ensures
        command_of(cmd, whitespace_words(line@), shared),
{
    let words = split_words(line);
    command_from_words(&words, shared)
}

// ---------------------------------------------------------------------------
// Frames
// ---------------------------------------------------------------------------

/// The RGB bytes of an RGBA framebuffer: each whole pixel without its alpha.
pub open spec fn rgb_of(rgba: Seq<u8>) -> Seq<u8> {
    Seq::new((rgba.len() / 4 * 3) as nat, |i: int| rgba[(i / 3) * 4 + i % 3])
}

/// `rgb_of` the framebuffer.
pub fn rgb_bytes(framebuffer: &[u8]) -> (rgb: Vec<u8>)
    ensures
        rgb@ == rgb_of(framebuffer@),
{
    let pixels = framebuffer.len() / 4;
    let mut rgb: Vec<u8> = Vec::new();
    let mut p: usize = 0;
    while p < pixels
        invariant
            pixels == framebuffer@.len() / 4,
            p <= pixels,
            rgb@.len() == p * 3,
            forall|i: int| 0 <= i < p * 3 ==> #[trigger] rgb@[i] == framebuffer@[(i / 3) * 4 + i % 3],
        decreases pixels - p,
    {
        let len = framebuffer.len();
        assert(p * 4 + 3 < len) by (nonlinear_arith)
            requires
                p < pixels,
                pixels == len / 4,
        ;
        rgb.push(framebuffer[p * 4]);
        rgb.push(framebuffer[p * 4 + 1]);
        rgb.push(framebuffer[p * 4 + 2]);
        p = p + 1;
        assert forall|i: int| 0 <= i < p * 3 implies #[trigger] rgb@[i] == framebuffer@[(i / 3) * 4
            + i % 3] by {
            if i >= (p - 1) * 3 {
                assert(i / 3 == p - 1);
            }
        }
    }
    assert(rgb@ =~= rgb_of(framebuffer@));
    rgb
}

/// The header of a binary PPM of the 160 x 144 screen: `P6\n160 144\n255\n`.
pub open spec fn ppm_header() -> Seq<u8> {
    seq![80u8, 54, 10, 49, 54, 48, 32, 49, 52, 52, 10, 50, 53, 53, 10]
}

fn slice_prefix(bytes: &[u8], n: usize) -> (prefix: Vec<u8>)
    requires
        n <= bytes@.len(),
    ensures
        prefix@ == bytes@.subrange(0, n as int),
{
    let mut prefix: Vec<u8> = Vec::new();
    let mut i: usize = 0;
    while i < n
        invariant
            n <= bytes@.len(),
            i <= n,
            prefix@ == bytes@.subrange(0, i as int),
        decreases n - i,
    {
        prefix.push(bytes[i]);
        i = i + 1;
        assert(prefix@ =~= bytes@.subrange(0, i as int));
    }
    prefix
}

/// The PPM image of the screen in `framebuffer`.
pub fn ppm_image(framebuffer: &[u8]) -> (image: Vec<u8>)
    requires
        framebuffer@.len() >= 92160,
    ensures
        image@ == ppm_header() + rgb_of(framebuffer@.subrange(0, 92160)),
{
    let mut image: Vec<u8> = Vec::new();
    image.push(80);
    image.push(54);
    image.push(10);
    image.push(49);
    image.push(54);
    image.push(48);
    image.push(32);
    image.push(49);
    image.push(52);
    image.push(52);
    image.push(10);
    image.push(50);
    image.push(53);
    image.push(53);
    image.push(10);
    assert(image@ =~= ppm_header());
    let screen = slice_prefix(framebuffer, 92160);
    let mut rgb = rgb_bytes(screen.as_slice());
    image.append(&mut rgb);
    image
}

/// The base64 digit of `v` (below 64).
pub open spec fn base64_digit(v: int) -> u8 {
    if v < 26 {
        (65 + v) as u8
    } else if v < 52 {
        (97 + v - 26) as u8
    } else if v < 62 {
        (48 + v - 52) as u8
    } else if v == 62 {
        43u8
    } else {
        47u8
    }
}

/// Three bytes as four base64 digits.
pub open spec fn base64_quad(a: u8, b: u8, c: u8) -> Seq<u8> {
    seq![
        base64_digit((a / 4) as int),
        base64_digit((a % 4) * 16 + b / 16),
        base64_digit((b % 16) * 4 + c / 64),
        base64_digit((c % 64) as int),
    ]
}

/// The base64 digits of the whole groups of three in `data` (its length a
/// multiple of three).
pub open spec fn base64_groups(data: Seq<u8>) -> Seq<u8>
    decreases data.len(),
{
    if data.len() < 3 {
        seq![]
    } else {
        base64_groups(data.subrange(0, data.len() - 3)) + base64_quad(
            data[data.len() - 3],
            data[data.len() - 2],
            data[data.len() - 1],
        )
    }
}

/// The base64 text of `data`, padded with `=`.
pub open spec fn base64_of(data: Seq<u8>) -> Seq<u8> {
    let whole = data.len() / 3 * 3;
    let head = base64_groups(data.subrange(0, whole as int));
    let rest = data.len() - whole;
    if rest == 1 {
        let a = data[whole as int];
        head + seq![base64_digit((a / 4) as int), base64_digit((a % 4) * 16), 61u8, 61u8]
    } else if rest == 2 {
        let a = data[whole as int];
        let b = data[whole + 1int];
        head + seq![
            base64_digit((a / 4) as int),
            base64_digit((a % 4) * 16 + b / 16),
            base64_digit((b % 16) * 4),
            61u8,
        ]
    } else {
        head
    }
}

fn base64_digit_byte(v: u8) -> (b: u8)
    requires
        v < 64,
    ensures
        b == base64_digit(v as int),
        b < 0x80,
{
    if v < 26 {
        65 + v
    } else if v < 52 {
        97 + v - 26
    } else if v < 62 {
        48 + v - 52
    } else if v == 62 {
        43
    } else {
        47
    }
}

/// `data` in base64 (`base64_of`).
pub fn base64_encode(data: &[u8]) -> (text: String)
    ensures
        text@ == base64_of(data@).map_values(|b: u8| b as char),
{
    let groups = data.len() / 3;
    let whole = groups * 3;
    let mut out: Vec<u8> = Vec::new();
    let mut g: usize = 0;
    assert(data@.subrange(0, 0).len() == 0);
    while g < groups
        invariant
            groups == data@.len() / 3,
            whole == groups * 3,
            g <= groups,
            out@ == base64_groups(data@.subrange(0, g * 3)),
            forall|k: int| 0 <= k < out@.len() ==> #[trigger] out@[k] < 0x80,
        decreases groups - g,
    {
        let i = g * 3;
        let a = data[i];
        let b = data[i + 1];
        let c = data[i + 2];
        out.push(base64_digit_byte(a / 4));
        out.push(base64_digit_byte((a % 4) * 16 + b / 16));
        out.push(base64_digit_byte((b % 16) * 4 + c / 64));
        out.push(base64_digit_byte(c % 64));
        let ghost next = data@.subrange(0, i + 3);
        assert(next.subrange(0, next.len() - 3) =~= data@.subrange(0, i as int));
        g = g + 1;
        assert(out@ =~= base64_groups(data@.subrange(0, g * 3)));
    }
    let rest = data.len() - whole;
    if rest == 1 {
        let a = data[whole];
        out.push(base64_digit_byte(a / 4));
        out.push(base64_digit_byte((a % 4) * 16));
        out.push(61);
        out.push(61);
    } else if rest == 2 {
        let a = data[whole];
        let b = data[whole + 1];
        out.push(base64_digit_byte(a / 4));
        out.push(base64_digit_byte((a % 4) * 16 + b / 16));
        out.push(base64_digit_byte((b % 16) * 4));
        out.push(61);
    }
    assert(out@ =~= base64_of(data@));
    decode_lossy(out.as_slice())
}

// ---------------------------------------------------------------------------
// Game data
// ---------------------------------------------------------------------------

/// Whether the agent lists a sprite: on a visible line (Y from 1 to 159)
/// and not hidden at the left edge (X above 0).
pub open spec fn spec_listed(entry: OamEntry) -> bool {
    entry.y > 0 && entry.y < 160 && entry.x > 0
}

/// The entries of `entries` that the agent lists, in order.
pub open spec fn listed_sprites(entries: Seq<OamEntry>) -> Seq<OamEntry>
    decreases entries.len(),
{
    if entries.len() == 0 {
        seq![]
    } else {
        let rest = listed_sprites(entries.drop_last());
        if spec_listed(entries.last()) {
            rest.push(entries.last())
        } else {
            rest
        }
    }
}

/// The sprites the agent lists: `listed_sprites`.
pub fn visible_sprites(entries: &Vec<OamEntry>) -> (sprites: Vec<OamEntry>)
    ensures
        sprites@ == listed_sprites(entries@),
{
    let mut sprites: Vec<OamEntry> = Vec::new();
    let mut i: usize = 0;
    assert(entries@.subrange(0, 0).len() == 0);
    while i < entries.len()
        invariant
            i <= entries@.len(),
            sprites@ == listed_sprites(entries@.subrange(0, i as int)),
        decreases entries@.len() - i,
    {
        let entry = entries[i];
        let ghost prefix = entries@.subrange(0, i + 1);
        assert(prefix.drop_last() =~= entries@.subrange(0, i as int));
        if entry.y > 0 && entry.y < 160 && entry.x > 0 {
            sprites.push(entry);
        }
        i = i + 1;
    }
    assert(entries@.subrange(0, entries@.len() as int) =~= entries@);
    sprites
}

/// The number in `bytes`: two BCD digits per byte, most significant byte
/// first.
pub open spec fn bcd_value(bytes: Seq<u8>) -> nat
    decreases bytes.len(),
{
    if bytes.len() == 0 {
        0
    } else {
        bcd_value(bytes.drop_last()) * 100 + (bytes.last() / 16) as nat * 10 + (bytes.last() % 16) as nat
    }
}

/// The score on screen, `bcd_value(bytes) * 10`, from up to three bytes.
pub fn bcd_score(bytes: &[u8]) -> (score: u32)
    requires
        bytes@.len() <= 3,
    ensures
        score == bcd_value(bytes@) * 10,
{
    let mut score: u32 = 0;
    let mut i: usize = 0;
    assert(bytes@.subrange(0, 0).len() == 0);
    while i < bytes.len()
        invariant
            bytes@.len() <= 3,
            i <= bytes@.len(),
            score as nat == bcd_value(bytes@.subrange(0, i as int)),
            score <= (if i == 0 {
                0int
            } else if i == 1 {
                165
            } else if i == 2 {
                16665
            } else {
                1666665
            }),
        decreases bytes@.len() - i,
    {
        let b = bytes[i];
        let ghost prefix = bytes@.subrange(0, i + 1);
        assert(prefix.drop_last() =~= bytes@.subrange(0, i as int));
        score = score * 100 + (b / 16) as u32 * 10 + (b % 16) as u32;
        i = i + 1;
    }
    assert(bytes@.subrange(0, bytes@.len() as int) =~= bytes@);
    score * 10
}

} // verus!
