//! Request helpers: the user agent sent with each request, and the title
//! quoted in a piece of background music's name.

use crate::json::opt_str_view;
use regex::Regex;
use vstd::prelude::*;

verus! {

/// The pattern that picks the title out of a music name: the text between
/// the first `《` that is followed, after at least one character, by a `》`,
/// and that `》`.
pub const TITLE_PATTERN: &'static str = "《([^》]+)》";

/// Whether `needle` occurs in `haystack` as a contiguous piece.
pub open spec fn contains_piece(haystack: Seq<char>, needle: Seq<char>) -> bool {
    exists|i: int|
        0 <= i && i + needle.len() <= haystack.len() && #[trigger] haystack.subrange(
            i,
            i + needle.len(),
        ) == needle
}

/// The position of the first `》` at or after `from`.
pub open spec fn closing_from(text: Seq<char>, from: int) -> Option<int>
    decreases text.len() - from,
{
    if from < 0 || from >= text.len() {
        None
    } else if text[from] == '》' {
        Some(from)
    } else {
        closing_from(text, from + 1)
    }
}

/// The leftmost match of `TITLE_PATTERN` that starts at or after `from`, as
/// its captured group: a match starts at a `《` whose next `》` is not the
/// character right after it.
pub open spec fn title_from(text: Seq<char>, from: int) -> Option<Seq<char>>
    decreases text.len() - from,
{
    if from < 0 || from >= text.len() {
        None
    } else if text[from] == '《' && closing_from(text, from + 1) is Some && closing_from(
        text,
        from + 1,
    ).unwrap() > from + 1 {
        Some(text.subrange(from + 1, closing_from(text, from + 1).unwrap()))
    } else {
        title_from(text, from + 1)
    }
}

/// What `extract_title` gives back for `text`.
pub open spec fn bracketed_title(text: Seq<char>) -> Option<Seq<char>> {
    title_from(text, 0)
}

/// The first capture group of the leftmost match of `pattern` in `text`, as
/// the `regex` crate reports it: `None` when `pattern` does not compile,
/// `Some(None)` when there is no match or the group took no part in it.
pub uninterp spec fn regex_first_group(pattern: Seq<char>, text: Seq<char>) -> Option<
    Option<Seq<char>>,
>;

/// The view of an optional optional string.
pub open spec fn opt_opt_str_view(r: Option<Option<String>>) -> Option<Option<Seq<char>>> {
    match r {
        Some(Some(s)) => Some(Some(s@)),
        Some(None) => Some(None),
        None => None,
    }
}

/// Compiles `pattern` with `regex::Regex::new` and runs `Regex::captures` on
/// `text`, then takes capture group 1.  Claimed: the result is the named
/// result `regex_first_group` of both arguments; and for `TITLE_PATTERN`,
/// which compiles, the leftmost-first match of `《([^》]+)》` is the one that
/// `bracketed_title` describes (the greedy `[^》]+` runs to the next `》`,
/// and must have taken at least one character).
#[verifier::external_body]
fn regex_capture_first_group(pattern: &str, text: &str) -> (r: Option<Option<String>>)
    ensures
        opt_opt_str_view(r) == regex_first_group(pattern@, text@),
        pattern@ == TITLE_PATTERN@ ==> opt_opt_str_view(r) == Some(bracketed_title(text@)),
{
    match Regex::new(pattern) {
        Err(_) => None,
        Ok(re) => match re.captures(text) {
            None => Some(None),
            Some(caps) => match caps.get(1) {
                Some(m) => Some(Some(m.as_str().to_string())),
                None => Some(None),
            },
        },
    }
}

/// Picks the title out of a music name such as `xxx《title》yyy`: the text
/// inside the first pair of `《` `》` that holds at least one character.
pub fn extract_title(text: &str) -> (r: Option<String>)
    ensures
        opt_str_view(r) == bracketed_title(text@),
{
    match regex_capture_first_group(TITLE_PATTERN, text) {
        Some(found) => found,
        None => None,
    }
}

/// The product tokens a user agent starts with.
pub open spec fn agent_bases() -> Seq<Seq<char>> {
    seq![
        "Mozilla/5.0"@,
        "Mozilla/4.0"@,
        "Opera/9.80"@,
        "Mozilla/3.0"@,
        "Mozilla/2.0"@,
        "Mozilla/1.0"@,
        "Opera/10.00"@,
        "Opera/12.16"@,
        "Mozilla/6.0"@,
        "Mozilla/7.0"@,
        "Opera/11.62"@,
        "Mozilla/8.0"@,
        "Mozilla/9.0"@,
        "Opera/8.54"@,
        "Opera/7.54"@,
        "Opera/6.03"@,
        "Opera/5.12"@,
        "Opera/4.02"@,
        "Mozilla/0.9"@,
        "Mozilla/0.8"@,
        "Mozilla/10.0"@,
        "Mozilla/11.0"@,
        "Mozilla/12.0"@,
        "Opera/9.26"@,
        "Opera/9.64"@,
        "Opera/9.23"@,
        "Opera/9.52"@,
        "Opera/9.27"@,
        "Opera/9.60"@,
        "Opera/9.02"@,
        "Opera/8.65"@,
        "Opera/8.51"@,
        "Opera/8.50"@,
        "Opera/7.60"@,
        "Opera/7.50"@,
        "Opera/7.20"@,
        "Opera/7.11"@,
        "Opera/7.03"@,
        "Opera/7.01"@,
        "Opera/7.0"@,
        "Opera/6.12"@,
        "Opera/6.11"@,
        "Opera/6.10"@,
        "Opera/5.14"@,
        "Opera/5.13"@,
        "Opera/5.11"@,
        "Opera/5.10"@,
        "Opera/5.02"@,
        "Opera/5.01"@,
        "Opera/5.0"@,
    ]
}

/// The operating systems a user agent names.
pub open spec fn agent_systems() -> Seq<Seq<char>> {
    seq![
        "Windows NT 10.0"@,
        "Windows NT 6.1"@,
        "Windows NT 6.2"@,
        "Windows NT 5.1"@,
        "Windows NT 5.0"@,
        "Mac OS X 10_15_7"@,
        "Mac OS X 10_14_6"@,
        "Mac OS X 10_13_6"@,
        "Linux x86_64"@,
        "Linux i686"@,
        "Linux armv7l"@,
        "Android 11"@,
        "Android 10"@,
        "Android 9"@,
        "Android 8.1.0"@,
        "Android 7.0"@,
        "iPhone OS 14_6"@,
        "iPhone OS 13_5"@,
        "iPhone OS 12_4"@,
        "iPad; CPU OS 13_2 like Mac OS X"@,
        "iPad; CPU OS 14_4 like Mac OS X"@,
        "FreeBSD"@,
        "NetBSD"@,
        "OpenBSD"@,
        "Solaris 11"@,
        "Ubuntu 20.04"@,
        "Ubuntu 18.04"@,
        "Debian 10"@,
        "Debian 9"@,
        "Fedora 34"@,
        "Fedora 33"@,
        "CentOS 7"@,
        "CentOS 8"@,
        "Arch Linux"@,
        "Manjaro"@,
        "Kali Linux"@,
        "Raspbian"@,
        "Chrome OS"@,
        "Haiku"@,
        "ReactOS"@,
        "Zorin OS"@,
        "Elementary OS"@,
        "Pop!_OS"@,
        "Gentoo Linux"@,
        "Mageia"@,
        "Slackware"@,
        "Puppy Linux"@,
        "Solus"@,
        "Deepin"@,
        "openSUSE Leap"@,
        "openSUSE Tumbleweed"@,
    ]
}

/// The devices a user agent names.
pub open spec fn agent_devices() -> Seq<Seq<char>> {
    seq![
        "Win64; x64"@,
        "Win32; x86"@,
        "Intel Mac OS X"@,
        "X11; Linux x86_64"@,
        "X11; Linux i686"@,
        "Mobile; rv:89.0"@,
        "CPU iPhone OS"@,
        "iPad; CPU OS"@,
        "Samsung SM-G950U"@,
        "Samsung SM-N960U"@,
        "Huawei P30 Pro"@,
        "OnePlus A6013"@,
        "Google Pixel 5"@,
        "Xiaomi Mi 9"@,
        "Sony Xperia XZ3"@,
        "LG G8 ThinQ"@,
        "HTC U11"@,
        "Nokia 7.2"@,
        "Motorola G7 Plus"@,
        "Lenovo Tab M10"@,
        "Asus ROG Phone"@,
        "Razer Phone 2"@,
        "ZTE Axon 10 Pro"@,
        "Oppo Find X2"@,
        "Vivo NEX 3"@,
        "Realme X50 Pro"@,
        "Honor 20 Pro"@,
        "BlackBerry KEY2"@,
        "Palm Phone"@,
        "Microsoft Surface Duo"@,
        "Amazon Kindle Fire"@,
        "Nintendo Switch"@,
        "PlayStation 4"@,
        "Xbox One"@,
        "Raspberry Pi 4"@,
        "BeagleBone Black"@,
        "Arduino Uno"@,
        "Dell XPS 13"@,
        "HP Spectre x360"@,
        "Lenovo ThinkPad X1"@,
        "Asus ZenBook 14"@,
        "Acer Swift 3"@,
        "MSI GS66 Stealth"@,
        "Alienware M15"@,
        "Apple MacBook Pro"@,
        "Apple MacBook Air"@,
        "Google Chromebook"@,
        "Huawei MateBook X Pro"@,
        "Samsung Galaxy Book"@,
        "Sony VAIO"@,
        "Toshiba Portege"@,
    ]
}

/// The WebKit versions a user agent names.
pub open spec fn agent_webkits() -> Seq<Seq<char>> {
    seq![
        "537.36"@,
        "605.1.15"@,
        "534.30"@,
        "601.1.56"@,
        "533.1"@,
        "537.71"@,
        "538.1"@,
        "534.59.10"@,
        "537.73.11"@,
        "602.1.50"@,
        "604.4.7"@,
        "606.4.5"@,
        "607.3.1"@,
        "608.2.11"@,
        "609.1.22"@,
        "610.4.1"@,
        "611.2.7"@,
        "612.1.7"@,
        "613.4.5"@,
        "614.3.1"@,
        "615.1.8"@,
        "616.4.5"@,
        "617.1.8"@,
        "618.2.11"@,
        "619.1.22"@,
        "620.4.1"@,
        "621.2.7"@,
        "622.1.7"@,
        "623.4.5"@,
        "624.3.1"@,
        "625.1.8"@,
        "626.4.5"@,
        "627.1.8"@,
        "628.2.11"@,
        "629.1.22"@,
        "630.4.1"@,
        "631.2.7"@,
        "632.1.7"@,
        "633.4.5"@,
        "634.3.1"@,
        "635.1.8"@,
        "636.4.5"@,
        "637.1.8"@,
        "638.2.11"@,
        "639.1.22"@,
        "640.4.1"@,
        "641.2.7"@,
        "642.1.7"@,
        "643.4.5"@,
        "644.3.1"@,
        "645.1.8"@,
    ]
}

/// The browsers a user agent names.
pub open spec fn agent_browsers() -> Seq<Seq<char>> {
    seq![
        "Chrome"@,
        "Firefox"@,
        "Safari"@,
        "Edge"@,
        "Opera"@,
        "Brave"@,
        "Vivaldi"@,
        "Internet Explorer"@,
        "Samsung Internet"@,
        "UC Browser"@,
        "Tor Browser"@,
        "Maxthon"@,
        "SeaMonkey"@,
        "Pale Moon"@,
        "Yandex Browser"@,
        "Epic"@,
        "Avant Browser"@,
        "Lynx"@,
        "Midori"@,
        "Konqueror"@,
        "Netscape"@,
        "Camino"@,
        "Flock"@,
        "RockMelt"@,
        "Comodo Dragon"@,
        "Sleipnir"@,
        "SRWare Iron"@,
        "360 Secure Browser"@,
        "Waterfox"@,
        "Qutebrowser"@,
        "SlimBrowser"@,
        "Tor Browser"@,
        "Falkon"@,
        "Dooble"@,
        "QtWeb"@,
        "Otter Browser"@,
        "Lunascape"@,
        "Cốc Cốc"@,
        "BlackHawk"@,
        "Superbird"@,
        "Cent Browser"@,
        "Ghost Browser"@,
        "Basilisk"@,
        "Min Browser"@,
        "Light"@,
        "Avast Secure Browser"@,
        "Polarity"@,
        "Coowon Browser"@,
        "Colibri"@,
        "Torch"@,
        "Cyberfox"@,
        "Slimjet"@,
    ]
}

/// The user agent made of the given table entries and version numbers, as
/// `rand_agents` formats it.
pub open spec fn user_agent_of(
    base: Seq<char>,
    system: Seq<char>,
    device: Seq<char>,
    webkit: Seq<char>,
    browser: Seq<char>,
    browser_version: int,
    build_version: int,
) -> Seq<char> {
    base + " ("@ + system + "; "@ + device + ") AppleWebKit/"@ + webkit + " (KHTML, like Gecko) "@
        + browser + "/"@ + decimal(browser_version) + ".0."@ + decimal(build_version) + " Safari/"@
        + webkit
}

/// Whether `agent` is one of the user agents that `rand_agents` draws: an
/// entry of each table, a browser version from 60 to 99 and a build version
/// from 0 to 499.
pub open spec fn is_drawn_user_agent(agent: Seq<char>) -> bool {
    exists|b: int, o: int, d: int, w: int, br: int, v: int, bv: int|
        0 <= b < agent_bases().len() && 0 <= o < agent_systems().len() && 0 <= d
            < agent_devices().len() && 0 <= w < agent_webkits().len() && 0 <= br
            < agent_browsers().len() && 60 <= v < 100 && 0 <= bv < 500 && agent
            == #[trigger] user_agent_of(
            agent_bases()[b],
            agent_systems()[o],
            agent_devices()[d],
            agent_webkits()[w],
            agent_browsers()[br],
            v,
            bv,
        )
}

/// Calls `rand_agents::user_agent`, which draws a browser user-agent string at
/// random.  Claimed of every outcome: it is made as the crate's format string
/// makes it, from one entry of each of the crate's tables, a browser version
/// in `60..100` and a build version in `0..500`; which ones is left open.
#[verifier::external_body]
fn random_user_agent() -> (r: String)
    ensures
        is_drawn_user_agent(r@),
{
    rand_agents::user_agent()
}

/// A browser user agent for a request, drawn at random from those that
/// `is_drawn_user_agent` describes.
pub fn get_user_agent() -> (r: String)
    ensures
        is_drawn_user_agent(r@),
{
    random_user_agent()
}

/// A title that `extract_title` finds is not empty, holds no `》`, and stands
/// in the text between a `《` and a `》`.
pub proof fn lemma_title_is_bracketed(text: Seq<char>)
    requires
        bracketed_title(text) is Some,
    ensures
        bracketed_title(text).unwrap().len() > 0,
        forall|j: int|
            0 <= j < bracketed_title(text).unwrap().len() ==> #[trigger] bracketed_title(
                text,
            ).unwrap()[j] != '》',
        contains_piece(text, seq!['《'] + bracketed_title(text).unwrap() + seq!['》']),
{
    lemma_title_from_is_bracketed(text, 0);
}

proof fn lemma_closing_from(text: Seq<char>, from: int)
    requires
        closing_from(text, from) is Some,
    ensures
        from <= closing_from(text, from).unwrap() < text.len(),
        text[closing_from(text, from).unwrap()] == '》',
        forall|j: int| from <= j < closing_from(text, from).unwrap() ==> text[j] != '》',
    decreases text.len() - from,
{
    if text[from] != '》' {
        lemma_closing_from(text, from + 1);
    }
}

proof fn lemma_title_from_is_bracketed(text: Seq<char>, from: int)
    requires
        title_from(text, from) is Some,
    ensures
        title_from(text, from).unwrap().len() > 0,
        forall|j: int|
            0 <= j < title_from(text, from).unwrap().len() ==> #[trigger] title_from(
                text,
                from,
            ).unwrap()[j] != '》',
        contains_piece(text, seq!['《'] + title_from(text, from).unwrap() + seq!['》']),
    decreases text.len() - from,
{
    if text[from] == '《' && closing_from(text, from + 1) is Some && closing_from(
        text,
        from + 1,
    ).unwrap() > from + 1 {
        let k = closing_from(text, from + 1).unwrap();
        lemma_closing_from(text, from + 1);
        let t = text.subrange(from + 1, k);
        let piece = seq!['《'] + t + seq!['》'];
        assert(text.subrange(from, from + piece.len()) =~= piece);
    } else {
        lemma_title_from_is_bracketed(text, from + 1);
    }
}

/// The character of a decimal digit.
pub open spec fn digit_char(d: nat) -> char {
    if d == 0 {
        '0'
    } else if d == 1 {
        '1'
    } else if d == 2 {
        '2'
    } else if d == 3 {
        '3'
    } else if d == 4 {
        '4'
    } else if d == 5 {
        '5'
    } else if d == 6 {
        '6'
    } else if d == 7 {
        '7'
    } else if d == 8 {
        '8'
    } else {
        '9'
    }
}

/// The decimal digits of `n`, most significant first, without leading zeros.
pub open spec fn digits_of(n: nat) -> Seq<char>
    decreases n,
{
    if n < 10 {
        seq![digit_char(n)]
    } else {
        digits_of(n / 10).push(digit_char(n % 10))
    }
}

/// `n` written in decimal, with a `-` in front when it is negative.
pub open spec fn decimal(n: int) -> Seq<char> {
    if n < 0 {
        seq!['-'] + digits_of((-n) as nat)
    } else {
        digits_of(n as nat)
    }
}

/// The one-character string of a decimal digit.
fn digit_str(d: u64) -> (r: &'static str)
    requires
        d < 10,
    ensures
        r@ == seq![digit_char(d as nat)],
{
    proof {
        reveal_strlit("0");
        reveal_strlit("1");
        reveal_strlit("2");
        reveal_strlit("3");
        reveal_strlit("4");
        reveal_strlit("5");
        reveal_strlit("6");
        reveal_strlit("7");
        reveal_strlit("8");
        reveal_strlit("9");
    }
    match d {
        0 => "0",
        1 => "1",
        2 => "2",
        3 => "3",
        4 => "4",
        5 => "5",
        6 => "6",
        7 => "7",
        8 => "8",
        _ => "9",
    }
}

/// Appends the decimal digits of `m` to `out`.
fn push_digits(out: &mut String, m: u64)
    ensures
        final(out)@ == old(out)@ + digits_of(m as nat),
    decreases m,
{
    if m >= 10 {
        push_digits(out, m / 10);
    }
    out.append(digit_str(m % 10));
    assert(old(out)@ + digits_of(m as nat) =~= if m >= 10 {
        old(out)@ + digits_of((m / 10) as nat) + seq![digit_char((m % 10) as nat)]
    } else {
        old(out)@ + seq![digit_char(m as nat)]
    });
}

/// `n` written in decimal, as `i64::to_string` writes it.
pub fn decimal_string(n: i64) -> (r: String)
    ensures
        r@ == decimal(n as int),
{
    let mut out = String::new();
    if n < 0 {
        proof {
            reveal_strlit("-");
        }
        out.append("-");
        let magnitude: u64 = (-(n as i128)) as u64;
        push_digits(&mut out, magnitude);
    } else {
        push_digits(&mut out, n as u64);
    }
    out
}

} // verus!
