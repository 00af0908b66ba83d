//! What the server answers with and where it says that it can be reached, said of
//! the paths, the headers and the addresses themselves.
use vstd::prelude::*;

use crate::server::addresses;
use crate::server::addresses::ServerAddresses;
use crate::server::headers;
use crate::server::headers::ClassicResponseHeaders;
use crate::text;

verus! {

/// A letter in lower case, where it is an ASCII letter.
pub open spec fn lowered(letter: int) -> int {
    if 65 <= letter <= 90 {
        letter + 32
    } else {
        letter
    }
}

/// Letters count as equal exactly where they are once both are in lower case.
pub proof fn law_case_does_not_count(left: char, right: char, first: u8, second: u8)
    ensures
        headers::same_letter(left, right) <==> lowered(left as int) == lowered(right as int),
        headers::same_letter_byte(first, second) <==> lowered(first as int) == lowered(
            second as int,
        ),
{
}

/// White space is that of Unicode: in ASCII the tab, the ends of lines and pages,
/// and the space, and nothing that can be seen.
pub proof fn law_white_space_is_unicodes(character: char)
    ensures
        (character as int) < 128 ==> (headers::is_white(character) <==> 9 <= character as int <= 13
            || character as int == 32),
        (character as int) >= 128 ==> (headers::is_white(character) <==> character as int == 0x85
            || character as int == 0xa0 || character as int == 0x1680 || 0x2000 <= character as int
            <= 0x200a || character as int == 0x2028 || character as int == 0x2029
            || character as int == 0x202f || character as int == 0x205f || character as int
            == 0x3000),
{
}

proof fn lemma_before_semicolon(value: Seq<char>)
    ensures
        headers::before_semicolon(value).is_prefix_of(value),
        !headers::before_semicolon(value).contains(';'),
        headers::before_semicolon(value).len() < value.len() ==> value[headers::before_semicolon(
            value,
        ).len() as int] == ';',
    decreases value.len(),
{
    if value.len() > 0 && value[0] != ';' {
        let rest = value.skip(1);
        lemma_before_semicolon(rest);
        let before = headers::before_semicolon(rest);
        let whole = seq![value[0]] + before;
        assert forall|at: int| 0 <= at < whole.len() implies whole[at] == value[at] && whole[at]
            != ';' by {
            if at > 0 {
                assert(whole[at] == before[at - 1]);
                assert(before[at - 1] == rest[at - 1]);
                assert(before.contains(before[at - 1]));
            }
        }
        assert(whole.is_prefix_of(value));
        if before.len() < rest.len() {
            assert(rest[before.len() as int] == value[before.len() as int + 1]);
        }
    }
}

/// What comes before the first semicolon begins the text, has none, and is
/// followed by one where the text goes on.
pub proof fn law_parameters_begin_at_the_first_semicolon(value: Seq<char>)
    ensures
        ({
            let before = headers::before_semicolon(value);
            &&& before.is_prefix_of(value)
            &&& !before.contains(';')
            &&& before.len() < value.len() ==> value[before.len() as int] == ';'
        }),
{
    lemma_before_semicolon(value);
}

proof fn lemma_trimmed_start(value: Seq<char>)
    ensures
        headers::trimmed_start(value).len() <= value.len(),
        headers::trimmed_start(value) == value.skip(
            value.len() - headers::trimmed_start(value).len(),
        ),
        forall|at: int|
            0 <= at < value.len() - headers::trimmed_start(value).len() ==> headers::is_white(
                #[trigger] value[at],
            ),
        headers::trimmed_start(value).len() > 0 ==> !headers::is_white(
            headers::trimmed_start(value)[0],
        ),
    decreases value.len(),
{
    if value.len() > 0 && headers::is_white(value[0]) {
        let rest = value.skip(1);
        lemma_trimmed_start(rest);
        let cut = headers::trimmed_start(value);
        assert(cut =~= value.skip(value.len() - cut.len()));
        assert forall|at: int| 0 <= at < value.len() - cut.len() implies headers::is_white(
            #[trigger] value[at],
        ) by {
            if at > 0 {
                assert(rest[at - 1] == value[at]);
            }
        }
    } else {
        assert(value.skip(0) =~= value);
    }
}

proof fn lemma_trimmed_end(value: Seq<char>)
    ensures
        headers::trimmed_end(value).len() <= value.len(),
        headers::trimmed_end(value) == value.take(headers::trimmed_end(value).len() as int),
        forall|at: int|
            headers::trimmed_end(value).len() <= at < value.len() ==> headers::is_white(
                #[trigger] value[at],
            ),
        headers::trimmed_end(value).len() > 0 ==> !headers::is_white(
            headers::trimmed_end(value).last(),
        ),
    decreases value.len(),
{
    if value.len() > 0 && headers::is_white(value.last()) {
        let rest = value.drop_last();
        lemma_trimmed_end(rest);
        let cut = headers::trimmed_end(value);
        assert(cut =~= value.take(cut.len() as int));
        assert forall|at: int| cut.len() <= at < value.len() implies headers::is_white(
            #[trigger] value[at],
        ) by {
            if at < value.len() - 1 {
                assert(rest[at] == value[at]);
            }
        }
    } else {
        assert(value.take(value.len() as int) =~= value);
    }
}

/// Trimming takes away white space at both ends, only that, and all of it.
pub proof fn law_trimming_takes_the_white_ends(value: Seq<char>)
    ensures
        ({
            let cut = headers::trimmed_end(headers::trimmed_start(value));
            let from = value.len() - headers::trimmed_start(value).len();
            &&& cut == value.subrange(from, from + cut.len())
            &&& forall|at: int|
                0 <= at < value.len() && !(from <= at < from + cut.len()) ==> headers::is_white(
                    #[trigger] value[at],
                )
            &&& cut.len() > 0 ==> !headers::is_white(cut[0]) && !headers::is_white(cut.last())
        }),
{
    let started = headers::trimmed_start(value);
    lemma_trimmed_start(value);
    lemma_trimmed_end(started);
    let cut = headers::trimmed_end(started);
    let from = value.len() - started.len();
    assert(cut =~= value.subrange(from, from + cut.len()));
    assert forall|at: int|
        0 <= at < value.len() && !(from <= at < from + cut.len()) implies headers::is_white(
        #[trigger] value[at],
    ) by {
        if at >= from {
            assert(started[at - from] == value[at]);
        }
    }
    if cut.len() > 0 {
        assert(cut[0] == started[0]);
    }
}

/// A content type is that of JSON exactly where what comes before its parameters,
/// without the white space around it, reads "application/json" in any case.
pub proof fn law_json_is_known_by_its_type(value: Seq<char>)
    ensures
        headers::is_json(value) <==> ({
            let named = headers::trimmed_end(
                headers::trimmed_start(headers::before_semicolon(value)),
            );
            let json = "application/json"@;
            &&& named.len() == json.len()
            &&& forall|at: int|
                0 <= at < json.len() ==> lowered(#[trigger] named[at] as int) == json[at] as int
        }),
{
    reveal_strlit("application/json");
    let json = "application/json"@;
    let named = headers::trimmed_end(headers::trimmed_start(headers::before_semicolon(value)));
    assert forall|at: int| 0 <= at < json.len() implies lowered(#[trigger] json[at] as int)
        == json[at] as int by {}
    if named.len() == json.len() {
        assert forall|at: int| 0 <= at < json.len() implies headers::same_letter(
            #[trigger] named[at],
            json[at],
        ) == (lowered(named[at] as int) == json[at] as int) by {
            law_case_does_not_count(named[at], json[at], 0, 0);
            assert(lowered(json[at] as int) == json[at] as int);
        }
    }
}

/// A path is one of classic WebDriver where it is that of the status or of the
/// sessions, with or without a slash at its end, or lies below the sessions.
pub proof fn law_classic_paths_lie_below_the_sessions(path: Seq<char>, rest: Seq<char>)
    ensures
        headers::is_classic("/status"@),
        headers::is_classic("/status"@ + "/"@),
        headers::is_classic("/session"@),
        headers::is_classic("/session"@ + "/"@ + rest),
        headers::is_classic(path) ==> path == "/status"@ || path == "/status"@ + "/"@ || path
            == "/session"@ || exists|below: Seq<char>| path == "/session"@ + "/"@ + below,
{
    reveal_strlit("/status");
    reveal_strlit("/status/");
    reveal_strlit("/session");
    reveal_strlit("/session/");
    reveal_strlit("/");
    assert("/status/"@ =~= "/status"@ + "/"@);
    assert("/session/"@ =~= "/session"@ + "/"@);
    assert("/session/"@.is_prefix_of("/session/"@ + rest));
    if "/session/"@.is_prefix_of(path) {
        assert(path =~= "/session"@ + "/"@ + path.skip("/session/"@.len() as int));
    }
    if path == "/session/"@ {
        assert(path =~= "/session"@ + "/"@ + Seq::<char>::empty());
    }
}

/// An upgrade asks for a WebSocket exactly where it is there and reads so, in any
/// case.
pub proof fn law_upgrade_is_known_by_its_name(value: Vec<u8>, websocket: bool)
    ensures
        call_ensures(headers::is_websocket_upgrade_request, (Some(&value),), websocket) ==> (
        websocket <==> ({
            let name = "websocket"@;
            &&& value@.len() == name.len()
            &&& forall|at: int|
                0 <= at < name.len() ==> lowered(#[trigger] value@[at] as int) == name[at] as int
        })),
        call_ensures(headers::is_websocket_upgrade_request, (None::<&Vec<u8>>,), websocket)
            ==> !websocket,
{
    reveal_strlit("websocket");
    let name = "websocket"@;
    let bytes = headers::websocket_bytes();
    assert forall|at: int| 0 <= at < name.len() implies #[trigger] bytes[at] as int == name[at] as int
        && lowered(bytes[at] as int) == bytes[at] as int by {}
    if value@.len() == name.len() {
        assert forall|at: int| 0 <= at < name.len() implies headers::same_letter_byte(
            #[trigger] value@[at],
            bytes[at],
        ) == (lowered(value@[at] as int) == name[at] as int) by {
            law_case_does_not_count('a', 'a', value@[at], bytes[at]);
            assert(bytes[at] as int == name[at] as int);
        }
    }
}

/// An answer has the headers of JSON that is not to be cached exactly where it is
/// JSON, for a path of classic WebDriver, and no upgrade.
pub proof fn law_classic_answers_are_not_cached(
    path: &str,
    is_upgrade: bool,
    content_type: Option<&str>,
    given: Option<ClassicResponseHeaders>,
)
    ensures
        call_ensures(
            headers::classic_webdriver_response_headers,
            (path, is_upgrade, content_type),
            given,
        ) ==> {
            &&& is_upgrade || content_type is None ==> given is None
            &&& !headers::is_classic(path@) ==> given is None
            &&& content_type matches Some(value) ==> (given is Some <==> !is_upgrade
                && headers::is_classic(path@) && headers::is_json(value@))
            &&& given matches Some(given) ==> given.cache_control@ == "no-cache"@
                && given.content_type@ == "application/json; charset=utf-8"@
        },
{
}

/// The addresses that a server hands out are WebSocket addresses where it
/// listens: one of the browser, one of its first Target and one of the sessions.
/// The inspector is told the Target's without the scheme.
pub proof fn law_addresses_lead_to_the_server(
    addr: &str,
    target: &str,
    given: ServerAddresses,
)
    ensures
        call_ensures(addresses::server_addresses, (addr, target), given) ==> {
            &&& given.browser_ws_url@ == "ws://"@ + addr@ + "/devtools/browser/moli-browser"@
            &&& given.page_ws_url@ == "ws://"@ + addr@ + "/devtools/page/"@ + target@
            &&& given.bidi_ws_url@ == "ws://"@ + addr@ + "/session"@
            &&& given.devtools_frontend_url@ == "/devtools/inspector.html?ws="@
                + given.page_ws_url@.skip(5)
        },
{
    reveal_strlit("ws://");
    let page = "ws://"@ + addr@ + "/devtools/page/"@ + target@;
    assert(page.skip(5) =~= addr@ + "/devtools/page/"@ + target@);
    assert("/devtools/inspector.html?ws="@ + page.skip(5) =~= "/devtools/inspector.html?ws="@
        + addr@ + "/devtools/page/"@ + target@);
}

/// The number that decimal digits write.
pub open spec fn written_number(digits: Seq<char>) -> nat
    decreases digits.len(),
{
    if digits.len() == 0 {
        0
    } else {
        written_number(digits.drop_last()) * 10 + (digits.last() as int - 48) as nat
    }
}

/// A number is written in decimal digits that read as it, and without a zero in
/// front.
pub proof fn law_numbers_are_written_in_decimal(value: nat)
    ensures
        written_number(text::decimal_text(value)) == value,
        text::decimal_text(value).len() > 0,
        forall|at: int|
            0 <= at < text::decimal_text(value).len() ==> 48 <= #[trigger] text::decimal_text(
                value,
            )[at] as int <= 57,
        value > 0 ==> text::decimal_text(value)[0] as int != 48,
    decreases value,
{
    let written = text::decimal_text(value);
    if value < 10 {
        assert(written.drop_last() =~= Seq::<char>::empty());
        assert(written_number(written.drop_last()) == 0);
        assert(written.last() as int == 48 + value);
    } else {
        law_numbers_are_written_in_decimal(value / 10);
        let front = text::decimal_text(value / 10);
        assert(written.drop_last() =~= front);
        assert(written.last() as int == 48 + value % 10);
        assert(value == (value / 10) * 10 + value % 10);
    }
}

/// The HTTP cache is where it is configured to be, and in the profile only where
/// it is configured nowhere. Where the server cannot listen, its host and port
/// are told.
pub proof fn law_configured_cache_comes_first(
    configured: Option<String>,
    profile: Option<String>,
    dir: Option<String>,
    host: &str,
    port: u16,
    message: String,
)
    ensures
        call_ensures(addresses::http_cache_dir, (configured, profile), dir) ==> {
            &&& configured is Some ==> dir == configured
            &&& configured is None ==> dir == profile
        },
        call_ensures(addresses::bind_failure_message, (host, port), message) ==> message@
            == "failed to bind protocol server to "@ + host@ + ":"@ + text::decimal_text(
            port as nat,
        ),
{
}

} // verus!
