//! Thin, trusted bridges to functions of std and of outside crates whose
//! behaviour this library relies on but does not prove.

use vstd::prelude::*;

use rand::rngs::StdRng;
use rand::{RngCore, SeedableRng};

verus! {

/// The characters that `String::from_utf8_lossy` yields for `bytes`.
pub uninterp spec fn lossy_utf8(bytes: Seq<u8>) -> Seq<char>;

/// Unicode's White_Space characters, the ones `char::is_whitespace` tests
/// for: U+0009..U+000D, space, U+0085, U+00A0, U+1680, U+2000..U+200A,
/// U+2028, U+2029, U+202F, U+205F and U+3000.
pub open spec fn is_white_space(c: char) -> bool {
    let n = c as u32;
    ||| 0x09 <= n <= 0x0d
    ||| n == 0x20 || n == 0x85 || n == 0xa0 || n == 0x1680
    ||| 0x2000 <= n <= 0x200a
    ||| n == 0x2028 || n == 0x2029 || n == 0x202f || n == 0x205f || n == 0x3000
}

/// `chars` without its leading whitespace.
pub open spec fn trim_start(chars: Seq<char>) -> Seq<char>
    decreases chars.len(),
{
    if chars.len() > 0 && is_white_space(chars[0]) {
        trim_start(chars.drop_first())
    } else {
        chars
    }
}

/// `chars` without its trailing whitespace.
pub open spec fn trim_end(chars: Seq<char>) -> Seq<char>
    decreases chars.len(),
{
    if chars.len() > 0 && is_white_space(chars.last()) {
        trim_end(chars.drop_last())
    } else {
        chars
    }
}

/// The characters that `str::trim` leaves of `chars`: leading and trailing
/// whitespace removed.
pub open spec fn trimmed(chars: Seq<char>) -> Seq<char> {
    trim_end(trim_start(chars))
}

/// The characters of `str::to_lowercase` of `chars`.
pub uninterp spec fn lowercased(chars: Seq<char>) -> Seq<char>;

/// The words of `chars` after the word `current` begun before it: the
/// maximal runs of characters that are not whitespace, in order.
pub open spec fn words_from(chars: Seq<char>, current: Seq<char>) -> Seq<Seq<char>>
    decreases chars.len(),
{
    let done: Seq<Seq<char>> = if current.len() == 0 { seq![] } else { seq![current] };
    if chars.len() == 0 {
        done
    } else if is_white_space(chars[0]) {
        done + words_from(chars.drop_first(), seq![])
    } else {
        words_from(chars.drop_first(), current.push(chars[0]))
    }
}

/// The words of `str::split_whitespace` of `chars`, in order: the maximal
/// runs of characters that are not whitespace.
pub open spec fn whitespace_words(chars: Seq<char>) -> Seq<Seq<char>> {
    words_from(chars, seq![])
}

/// The bytes that `StdRng::seed_from_u64(seed)` writes, through
/// `RngCore::fill_bytes`, into a buffer of `len` bytes.
pub uninterp spec fn seeded_bytes(seed: u64, len: nat) -> Seq<u8>;

/// Decodes `bytes` with `String::from_utf8_lossy`. The contract names the
/// result; it also states the documented fact that bytes below 0x80 (ASCII,
/// hence valid UTF-8) decode to the characters with the same code points.
#[verifier::external_body]
pub(crate) fn decode_lossy(bytes: &[u8]) -> (text: String)
    ensures
        text@ == lossy_utf8(bytes@),
        (forall|i: int| 0 <= i < bytes@.len() ==> #[trigger] bytes@[i] < 0x80) ==> text@
            == bytes@.map_values(|b: u8| b as char),
{
    String::from_utf8_lossy(bytes).into_owned()
}

/// Returns `str::trim` of `text` as an owned string: `text` without its
/// leading and trailing Unicode whitespace.
#[verifier::external_body]
pub(crate) fn trim_whitespace(text: &str) -> (result: String)
    ensures
        result@ == trimmed(text@),
{
    text.trim().to_owned()
}

/// Every character of `chars` is ASCII.
pub open spec fn all_ascii(chars: Seq<char>) -> bool {
    forall|i: int| 0 <= i < chars.len() ==> (#[trigger] chars[i]) as u32 <= 0x7f
}

/// `chars` with the ASCII capitals A-Z made small; every other character kept.
pub open spec fn ascii_lowercase(chars: Seq<char>) -> Seq<char> {
    chars.map_values(|c: char| if 0x41 <= (c as u32) <= 0x5a { ((c as u32) + 32) as char } else { c })
}

/// Returns `str::to_lowercase` of `text`. The contract names the result, and
/// states the documented fact that on ASCII text it maps A-Z to a-z and keeps
/// every other character; Unicode's full case mapping is left unsaid.
#[verifier::external_body]
pub(crate) fn to_lowercase(text: &str) -> (lower: String)
    ensures
        lower@ == lowercased(text@),
        all_ascii(text@) ==> lower@ == ascii_lowercase(text@),
{
    text.to_lowercase()
}

/// Returns the words of `str::split_whitespace` of `text`, in order: its
/// maximal runs of characters that are not Unicode whitespace.
#[verifier::external_body]
pub(crate) fn split_words(text: &str) -> (words: Vec<String>)
    ensures
        words@.map_values(|w: String| w@) == whitespace_words(text@),
{
    text.split_whitespace().map(String::from).collect()
}

/// `rand::random::<u64>()`: a fresh value from the thread's generator;
/// nothing is promised of it.
#[verifier::external_body]
pub(crate) fn random_seed() -> u64 {
    rand::random()
}

/// Fills a fresh buffer of `len` bytes from `StdRng::seed_from_u64(seed)` with
/// `RngCore::fill_bytes`. The generator is deterministic for a given seed, so
/// the contents are named; the buffer has exactly `len` bytes.
#[verifier::external_body]
pub(crate) fn seeded_fill(seed: u64, len: usize) -> (bytes: Vec<u8>)
    ensures
        bytes@ == seeded_bytes(seed, len as nat),
        bytes@.len() == len,
{
    let mut bytes = vec![0u8; len];
    StdRng::seed_from_u64(seed).fill_bytes(&mut bytes);
    bytes
}

} // verus!

verus! {

#[verifier::external_type_specification]
#[verifier::external_body]
pub struct ExInstant(std::time::Instant);

#[verifier::external_type_specification]
#[verifier::external_body]
pub struct ExPathBuf(std::path::PathBuf);

/// `PathBuf::clone`: a copy of the path; nothing is promised of it.
pub assume_specification[<std::path::PathBuf as Clone>::clone](path: &std::path::PathBuf) -> std::path::PathBuf;

#[verifier::external_type_specification]
#[verifier::external_body]
#[verifier::reject_recursive_types(T)]
pub struct ExSender<T>(std::sync::mpsc::Sender<T>);

/// `Instant::now()`; nothing is promised of the clock reading.
#[verifier::external_body]
pub(crate) fn instant_now() -> std::time::Instant {
    std::time::Instant::now()
}

/// `Instant::elapsed`: the wall time since `start`; depends on the clock.
#[verifier::external_body]
pub(crate) fn instant_elapsed(start: &std::time::Instant) -> std::time::Duration {
    start.elapsed()
}

/// The whole seconds that `Duration::as_secs` gives of `d`.
pub uninterp spec fn duration_secs_of(d: std::time::Duration) -> u64;

/// `Duration::as_secs`: the whole seconds of `d`, named by
/// `duration_secs_of` (a pure function of the duration).
#[verifier::external_body]
pub(crate) fn duration_secs(d: &std::time::Duration) -> (secs: u64)
    ensures
        secs == duration_secs_of(*d),
{
    d.as_secs()
}

/// `Duration::as_millis`: the whole milliseconds of `d`.
#[verifier::external_body]
pub(crate) fn duration_millis(d: &std::time::Duration) -> u128 {
    d.as_millis()
}

/// The span that `Duration::from_nanos` makes of `nanos` nanoseconds.
pub uninterp spec fn nanos_duration(nanos: u64) -> std::time::Duration;

/// `Duration::from_nanos`: the span of `nanos` nanoseconds, named by
/// `nanos_duration` (a pure function of its argument).
#[verifier::external_body]
pub(crate) fn duration_from_nanos(nanos: u64) -> (d: std::time::Duration)
    ensures
        d == nanos_duration(nanos),
{
    std::time::Duration::from_nanos(nanos)
}

/// `Duration::from_millis`.
#[verifier::external_body]
pub(crate) fn duration_from_millis(millis: u64) -> std::time::Duration {
    std::time::Duration::from_millis(millis)
}

/// `Instant::checked_sub`: the instant `d` before `at`, or `None` where the
/// clock cannot represent it.
#[verifier::external_body]
pub(crate) fn instant_checked_sub(at: &std::time::Instant, d: &std::time::Duration) -> Option<std::time::Instant> {
    at.checked_sub(*d)
}

} // verus!

verus! {

#[verifier::external_type_specification]
#[verifier::external_body]
#[verifier::reject_recursive_types(T)]
pub struct ExReceiver<T>(std::sync::mpsc::Receiver<T>);

#[verifier::external_type_specification]
#[verifier::external_body]
#[verifier::reject_recursive_types(T)]
pub struct ExSyncSender<T>(std::sync::mpsc::SyncSender<T>);

/// What a non-blocking receive found.
pub enum Received<T> {
    Value(T),
    Empty,
    Disconnected,
}

/// What a non-blocking send into a bounded channel did.
pub enum TrySent<T> {
    Sent,
    Full(T),
    Disconnected(T),
}

/// `std::sync::mpsc::channel`: a fresh unbounded channel.
#[verifier::external_body]
pub(crate) fn new_channel<T>() -> (std::sync::mpsc::Sender<T>, std::sync::mpsc::Receiver<T>) {
    std::sync::mpsc::channel()
}

/// `std::sync::mpsc::sync_channel`: a fresh channel holding at most `bound` messages.
#[verifier::external_body]
pub(crate) fn new_sync_channel<T>(bound: usize) -> (std::sync::mpsc::SyncSender<T>, std::sync::mpsc::Receiver<T>) {
    std::sync::mpsc::sync_channel(bound)
}

/// The record of one `Sender::send`: the sender it went through, the message
/// handed to it, and whether the channel took it. Only `channel_send` makes
/// one.
#[verifier::reject_recursive_types(T)]
pub struct SendReceipt<T> {
    record: Ghost<(std::sync::mpsc::Sender<T>, T, bool)>,
}

impl<T> SendReceipt<T> {
    /// The sender the message was handed to.
    pub closed spec fn sender(&self) -> std::sync::mpsc::Sender<T> {
        let (sender, _, _) = self.record@;
        sender
    }

    /// The message handed over.
    pub closed spec fn message(&self) -> T {
        let (_, message, _) = self.record@;
        message
    }

    /// Whether the channel took the message (its receiver was still there).
    pub closed spec fn accepted(&self) -> bool {
        let (_, _, accepted) = self.record@;
        accepted
    }
}

/// `Sender::send` of `value` through `sender`; true where the message was
/// handed over. Returns with it the record of the call: the sender and the
/// message it was given, and the same answer. Whether the receiver is still
/// there is not known here, so the answer itself is not promised.
#[verifier::external_body]
pub(crate) fn channel_send<T>(sender: &std::sync::mpsc::Sender<T>, value: T) -> (r: (bool, SendReceipt<T>))
    ensures
        r.1.sender() == *sender,
        r.1.message() == value,
        r.1.accepted() == r.0,
{
    let accepted = sender.send(value).is_ok();
    (accepted, SendReceipt { record: Ghost(vstd::pervasive::arbitrary()) })
}

/// `Sender::clone`: another handle on the same channel. Nothing is
/// promised of the handle.
pub assume_specification<T>[<std::sync::mpsc::Sender<T> as Clone>::clone](
    sender: &std::sync::mpsc::Sender<T>,
) -> std::sync::mpsc::Sender<T>;

/// `SyncSender::try_send`; as its documentation says, a message that could
/// not be sent (queue full, or receiver gone) comes back in the error.
/// Whether it is sent depends on the other thread, which is left unsaid.
#[verifier::external_body]
pub(crate) fn sync_try_send<T>(sender: &std::sync::mpsc::SyncSender<T>, value: T) -> (r: TrySent<T>)
    ensures
        r matches TrySent::Full(v) ==> v == value,
        r matches TrySent::Disconnected(v) ==> v == value,
{
    match sender.try_send(value) {
        Ok(()) => TrySent::Sent,
        Err(std::sync::mpsc::TrySendError::Full(v)) => TrySent::Full(v),
        Err(std::sync::mpsc::TrySendError::Disconnected(v)) => TrySent::Disconnected(v),
    }
}

/// `Receiver::try_recv`; what arrives depends on other threads, so nothing
/// is promised of it.
#[verifier::external_body]
pub(crate) fn channel_try_recv<T>(receiver: &std::sync::mpsc::Receiver<T>) -> Received<T> {
    match receiver.try_recv() {
        Ok(v) => Received::Value(v),
        Err(std::sync::mpsc::TryRecvError::Empty) => Received::Empty,
        Err(std::sync::mpsc::TryRecvError::Disconnected) => Received::Disconnected,
    }
}

} // verus!
