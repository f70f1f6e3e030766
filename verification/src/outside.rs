//! The calls into the clock, the random generator and other crates.

use vstd::prelude::*;
use vstd::utf8::{decode_utf8, valid_utf8};

verus! {

/// A version 4 identifier: its version digit is four and its variant bits are
/// `10`.
pub open spec fn random_id(id: u128) -> bool {
    &&& (id >> 76) & 0xf == 4
    &&& (id >> 62) & 0x3 == 2
}

/// `uuid::Uuid::new_v4` and `uuid::Uuid::as_u128`: a random identifier. Which
/// one is left to chance; it always has the version digit and the variant bits
/// of a version 4 identifier.
#[verifier::external_body]
pub(crate) fn new_message_id() -> (id: u128)
    ensures
        random_id(id),
{
    uuid::Uuid::new_v4().as_u128()
}

/// `chrono::Utc::now` and `chrono::DateTime::timestamp`: the seconds since the
/// Unix epoch. `now` gives no time before the epoch, so they are not negative;
/// which they are depends on the clock.
#[verifier::external_body]
pub(crate) fn timestamp_now() -> (t: i64)
    ensures
        t >= 0,
{
    chrono::Utc::now().timestamp()
}

/// How many characters a password may have for its estimate to be free of
/// overflow: 20 where `usize` has more than 32 bits, and 12 where it has not.
///
/// What the estimate multiplies without a check against overflow is this.
/// - The factorial of the number of pieces into which the password is cut, in
///   a `usize`. There are at most as many pieces as characters; 20 factorial
///   fits into 64 bits and 12 factorial into 32.
/// - The average number of neighbours of a key, 4 or 5, to the power of the
///   turns of a walk over the keys, in a `u64`. A walk has fewer turns than
///   characters, and 5 to the 19th fits.
/// - The guesses for a word, in a `u64`. Its rank is below two to the 19th, its
///   capitalizations and its substitutions are at most two to the 20th each,
///   and a reversal doubles them: two to the 60th fits.
/// - The guesses for a sequence, a year and a date, which stay in the millions.
///
/// The search for repetitions gives up after a million steps and would then
/// panic; so few characters take some thousands.
pub open spec fn rated_chars() -> nat {
    if usize::MAX > 0xffff_ffff {
        20
    } else {
        12
    }
}

/// The highest score of a password of `n` characters. Ten to the `n` guesses
/// and one find any such password, and the score counts the guesses: up to ten
/// to the 3rd, 6th, 8th and 10th, with a margin of four, are worth 0 to 3.
pub open spec fn score_limit(n: nat) -> i32 {
    if n <= 3 {
        0
    } else if n <= 6 {
        1
    } else if n <= 8 {
        2
    } else if n <= 10 {
        3
    } else {
        4
    }
}

/// The score that `zxcvbn::zxcvbn` without user inputs gives a password in a
/// year. The year is all that it takes from outside: years and dates in a
/// password count by their distance from it. The hash maps that it walks are
/// seeded anew in every process, but their order shows only in the guesses for
/// cuts into four and more pieces, all of which are beyond ten to the 12th and
/// worth 4.
pub uninterp spec fn score_in(password: Seq<char>, year: i32) -> i32;

/// `zxcvbn::zxcvbn` without user inputs and `zxcvbn::Entropy::score`: how hard
/// this password is to guess in the current year, from 0 to 4, and no higher
/// than a search through all passwords of its length is worth. Which year it
/// is depends on the clock. A password of more than [`rated_chars`] characters
/// can make the estimate overflow and panic.
#[verifier::external_body]
pub(crate) fn password_score(password: &str) -> (score: i32)
    requires
        password@.len() <= rated_chars(),
    ensures
        0 <= score <= score_limit(password@.len()),
        exists|year: i32| #[trigger] score_in(password@, year) == score,
{
    i32::from(u8::from(zxcvbn::zxcvbn(password, &[]).score()))
}

/// The text that `String::from_utf8_lossy` makes of bytes.
pub uninterp spec fn utf8_lossy(bytes: Seq<u8>) -> Seq<char>;

/// `String::from_utf8_lossy` and `Cow::into_owned`: the bytes as text. Bytes
/// that are valid UTF-8 give the text that they encode. In others each invalid
/// sequence is replaced by U+FFFD; what comes of them is left to the name, but
/// for line feeds: the byte 10 is a character by itself and no part of any
/// other or of an invalid sequence, so it stays where it ends the bytes, and no
/// line feed comes up where there is none, neither anywhere nor before the end.
#[verifier::external_body]
pub(crate) fn text_from_utf8(bytes: &[u8]) -> (r: String)
    ensures
        r@ == utf8_lossy(bytes@),
        valid_utf8(bytes@) ==> r@ == decode_utf8(bytes@),
        bytes@.len() > 0 && bytes@.last() == 10 ==> r@.len() > 0 && r@.last() == '\n',
        !bytes@.contains(10) ==> !r@.contains('\n'),
        bytes@.len() > 0 && !bytes@.drop_last().contains(10) ==> !r@.drop_last().contains('\n'),
{
    String::from_utf8_lossy(bytes).into_owned()
}

/// Whether `rustls_pki_types::ServerName::try_from` accepts a text: a DNS name
/// or an IP address.
pub uninterp spec fn valid_server_name(name: Seq<char>) -> bool;

/// `rustls_pki_types::ServerName::try_from` on a `String`, and the `Display` of
/// `rustls_pki_types::InvalidDnsNameError`: whether a text can name a server.
/// The error has one wording.
#[verifier::external_body]
pub(crate) fn check_server_name(name: &str) -> (r: Result<(), String>)
    ensures
        r is Ok <==> valid_server_name(name@),
        r matches Err(e) ==> e@ == "invalid dns name"@,
{
    match rustls_pki_types::ServerName::try_from(name.to_owned()) {
        Ok(_) => Ok(()),
        Err(e) => Err(e.to_string()),
    }
}

/// A time of day: two digits of the hour, a colon, two digits of the minute.
pub open spec fn clock_text(s: Seq<char>) -> bool {
    exists|hour: nat, minute: nat|
        {
            &&& hour < 24
            &&& minute < 60
            &&& s == #[trigger] two_digits(hour) + seq![':'] + #[trigger] two_digits(minute)
        }
}

/// A number below a hundred, in two digits.
pub open spec fn two_digits(n: nat) -> Seq<char> {
    seq![crate::text::digit(n / 10), crate::text::digit(n % 10)]
}

/// `chrono::Local::now` and `chrono::DateTime::format` with `%H:%M`: the local
/// time of day. Which it is depends on the clock and on the machine's time
/// zone.
#[verifier::external_body]
pub(crate) fn local_clock() -> (r: String)
    ensures
        clock_text(r@),
{
    chrono::Local::now().format("%H:%M").to_string()
}

} // verus!
