//! Rules of plain HTTP that the client relies on.

use crate::text::{
    begins_with, concat2, decimal, decimal_text, law_prefix_agrees, law_strip_removes_run_only,
    law_trim_removes_white_space_only, starts_with, strip_trailing, texts, trim, trimmed,
    white_space, without_trailing, Text, Texts,
};
use vstd::prelude::*;

verus! {

/// Seconds within which a connection for the user interface has to stand.
pub const CONNECT_TIMEOUT_SECS: u64 = 10;

/// Seconds within which a request for the user interface has to be answered.
pub const REQUEST_TIMEOUT_SECS: u64 = 30;

/// Seconds within which a ping has to be answered.
pub const PING_TIMEOUT_SECS: u64 = 20;

/// How `StatusCode` is displayed: the number and its canonical reason.
pub uninterp spec fn status_display(code: u16) -> Seq<char>;

/// Calls the `Display` of `reqwest::StatusCode`. What it writes depends on the code alone, and
/// is named `status_display`; the table of canonical reasons is not repeated here.
#[verifier::external_body]
fn display_status(code: u16) -> (text: String)
    requires
        is_status(code),
    ensures
        text@ == status_display(code),
{
    format!("{}", reqwest::StatusCode::from_u16(code).unwrap())
}

/// Whether `code` is a status code at all.
pub open spec fn is_status(code: u16) -> bool {
    100 <= code <= 999
}

/// Whether `code` reports success.
pub open spec fn is_success(code: u16) -> bool {
    200 <= code < 300
}

/// Whether `code` reports success.
pub fn success(code: u16) -> (res: bool)
    ensures
        res == is_success(code),
{
    200 <= code && code < 300
}

/// The text of a status code: its number and reason.
pub fn status_text(code: u16) -> (text: String)
    requires
        is_status(code),
    ensures
        text@ == status_display(code),
{
    display_status(code)
}

/// Whether a character may stand in the name of an HTTP method.
pub open spec fn is_method_char(c: char) -> bool {
    ||| 'a' <= c <= 'z'
    ||| 'A' <= c <= 'Z'
    ||| '0' <= c <= '9'
    ||| c == '!' || c == '#' || c == '$' || c == '%' || c == '&' || c == '\'' || c == '*'
    ||| c == '+' || c == '-' || c == '.' || c == '^' || c == '_' || c == '`' || c == '|'
    ||| c == '~'
}

/// Whether a text is the name of an HTTP method: one or more of its characters.
pub open spec fn is_method(text: Text) -> bool {
    text.len() > 0 && forall|i: int| 0 <= i < text.len() ==> is_method_char(#[trigger] text[i])
}

/// Calls `reqwest::Method::from_bytes`, which accepts the names of methods, standard or not, and
/// nothing else. A name is given back as it is; the error is given as its `Debug` writes it.
#[verifier::external_body]
fn parse_method(text: &str) -> (res: Result<String, String>)
    ensures
        match res {
            Ok(name) => is_method(text@) && name@ == text@,
            Err(error) => !is_method(text@) && error@ == "InvalidMethod"@,
        },
{
    match reqwest::Method::from_bytes(text.as_bytes()) {
        Ok(method) => Ok(method.as_str().to_string()),
        Err(e) => Err(format!("{:#?}", e)),
    }
}

/// Checks the method of a request.
pub fn check_method(method: &str) -> (res: Result<String, String>)
    ensures
        match res {
            Ok(name) => is_method(method@) && name@ == method@,
            Err(message) => !is_method(method@) && message@ == "invalid method: "@
                + "InvalidMethod"@,
        },
{
    match parse_method(method) {
        Ok(name) => Ok(name),
        Err(error) => Err(concat2("invalid method: ", error.as_str())),
    }
}

/// The lines that name the causes of an error, numbered from the outermost.
pub open spec fn cause_lines(causes: Texts) -> Text
    decreases causes.len(),
{
    if causes.len() == 0 {
        Seq::empty()
    } else {
        cause_lines(causes.drop_last()) + "\nCaused by ["@ + decimal(
            (causes.len() - 1) as nat,
        ) + "]: "@ + causes.last()
    }
}

/// What is reported of a request that failed: its URL, the error in its two notations, and the
/// causes of the error.
pub open spec fn failure_report(url: Text, display: Text, debug: Text, causes: Texts) -> Text {
    "request failed\nURL: "@ + url + "\nDisplay: "@ + display + "\nDebug: "@ + debug
        + cause_lines(causes)
}

/// Reports a request that failed.
pub fn request_failure(url: &str, display: &str, debug: &str, causes: &Vec<String>) -> (report:
    String)
    ensures
        report@ == failure_report(url@, display@, debug@, texts(causes@)),
{
    let mut report = concat2("request failed\nURL: ", url);
    report.append("\nDisplay: ");
    report.append(display);
    report.append("\nDebug: ");
    report.append(debug);
    let ghost head = report@;
    let ghost all = texts(causes@);
    let mut i: usize = 0;
    assert(all.take(0) =~= Seq::empty());
    assert(report@ =~= head + cause_lines(all.take(0)));
    while i < causes.len()
        invariant
            i <= causes.len(),
            all == texts(causes@),
            report@ == head + cause_lines(all.take(i as int)),
        decreases causes.len() - i,
    {
        report.append("\nCaused by [");
        report.append(decimal_text(i as u64).as_str());
        report.append("]: ");
        report.append(causes[i].as_str());
        proof {
            assert(all.take(i + 1).drop_last() =~= all.take(i as int));
            assert(all.take(i + 1).last() == causes@[i as int]@);
        }
        i = i + 1;
        assert(report@ =~= head + cause_lines(all.take(i as int)));
    }
    assert(all.take(i as int) =~= all);
    report
}

/// The reply to a request that was made for the user interface.
#[derive(Debug)]
pub struct InsecureHttpResponse {
    pub status: u16,
    pub body: String,
}

/// Reports that the HTTP client could not be built, given the error.
pub fn build_failure(debug: &str) -> (report: String)
    ensures
        report@ == "build reqwest client failed: "@ + debug@,
{
    concat2("build reqwest client failed: ", debug)
}

/// Reports that the body of a reply could not be read, given the error.
pub fn body_failure(debug: &str) -> (report: String)
    ensures
        report@ == "read response body failed: "@ + debug@,
{
    concat2("read response body failed: ", debug)
}

/// A text, or the words of an error, as contracts see them.
pub open spec fn text_view(res: Result<String, String>) -> Result<Text, Text> {
    match res {
        Ok(text) => Ok(text@),
        Err(error) => Err(error@),
    }
}

/// A reply, or the words of an error, as contracts see them.
pub open spec fn response_view(res: Result<InsecureHttpResponse, String>) -> Result<
    (u16, Text),
    Text,
> {
    match res {
        Ok(response) => Ok((response.status, response.body@)),
        Err(error) => Err(error@),
    }
}

/// What a request for the user interface comes to, given its status and its body.
pub open spec fn http_reply(status: u16, body: Result<Text, Text>) -> Result<(u16, Text), Text> {
    match body {
        Ok(text) => Ok((status, text)),
        Err(error) => Err("read response body failed: "@ + error),
    }
}

/// What a ping comes to, given its status and its body.
pub open spec fn ping_reply(status: u16, body: Result<Text, Text>) -> Result<Text, Text> {
    match body {
        Ok(text) => if is_success(status) {
            Ok(text)
        } else {
            Err(status_complaint(status_display(status), text))
        },
        Err(error) => Err("read response body failed: "@ + error),
    }
}

/// The result of a request for the user interface: the reply whatever its status, or the error
/// with which its body could not be read.
pub fn http_outcome(status: u16, body: Result<String, String>) -> (res: Result<
    InsecureHttpResponse,
    String,
>)
    ensures
        match (body, res) {
            (Ok(text), Ok(response)) => response.status == status && response.body@ == text@,
            (Err(error), Err(report)) => report@ == "read response body failed: "@ + error@,
            _ => false,
        },
        response_view(res) == http_reply(status, text_view(body)),
{
    match body {
        Ok(body) => Ok(InsecureHttpResponse { status, body }),
        Err(error) => Err(body_failure(error.as_str())),
    }
}

/// A site's address as it is used: without white space around it and slashes behind it.
pub open spec fn site_address(text: Text) -> Text {
    without_trailing(trimmed(text), '/')
}

/// Whether an address is one of the web.
pub open spec fn is_web_address(site: Text) -> bool {
    begins_with(site, "http://"@) || begins_with(site, "https://"@)
}

/// The URL at which a site is asked whether it is there.
pub open spec fn ping_address(site: Text) -> Text {
    site + "/api/v4/site/ping"@
}

/// Whether a result is the ping URL of a web address, or the complaint about another one.
pub open spec fn pings(res: Result<String, String>, site: Text) -> bool {
    match res {
        Ok(url) => is_web_address(site) && url@ == ping_address(site),
        Err(message) => !is_web_address(site) && message@ == "invalid site url: "@ + site,
    }
}

/// The ping URL of a site whose address has no white space around it.
pub fn ping_url_of(site: &str) -> (res: Result<String, String>)
    ensures
        pings(res, without_trailing(site@, '/')),
{
    let site = strip_trailing(site, '/');
    if !starts_with(site, "http://") && !starts_with(site, "https://") {
        return Err(concat2("invalid site url: ", site));
    }
    Ok(concat2(site, "/api/v4/site/ping"))
}

/// The ping URL of a site.
pub fn ping_url(site_url: &str) -> (res: Result<String, String>)
    ensures
        pings(res, site_address(site_url@)),
{
    ping_url_of(trim(site_url))
}

/// The complaint about a reply other than success, given how its status is displayed.
pub open spec fn status_complaint(status: Text, body: Text) -> Text {
    "http status error: "@ + status + "\nbody: "@ + body
}

/// Complains about a reply other than success, given how its status is displayed.
pub fn complain(status: &str, body: &str) -> (report: String)
    ensures
        report@ == status_complaint(status@, body@),
{
    let mut report = concat2("http status error: ", status);
    report.append("\nbody: ");
    report.append(body);
    report
}

/// The result of a ping: the body of a successful reply, the complaint about another one, or the
/// error with which the body could not be read.
pub fn ping_outcome(status: u16, body: Result<String, String>) -> (res: Result<String, String>)
    requires
        is_status(status),
    ensures
        match (body, res) {
            (Ok(text), Ok(reply)) => is_success(status) && reply@ == text@,
            (Ok(text), Err(report)) => !is_success(status) && report@ == status_complaint(
                status_display(status),
                text@,
            ),
            (Err(error), Err(report)) => report@ == "read response body failed: "@ + error@,
            (Err(_), Ok(_)) => false,
        },
        text_view(res) == ping_reply(status, text_view(body)),
{
    match body {
        Ok(body) => {
            if success(status) {
                Ok(body)
            } else {
                Err(complain(status_text(status).as_str(), body.as_str()))
            }
        },
        Err(error) => Err(body_failure(error.as_str())),
    }
}

/// Slashes behind an address make no difference to where the site is pinged, and a site that is
/// pinged has none left.
pub proof fn law_trailing_slash_is_ignored(site: Text)
    ensures
        without_trailing(site.push('/'), '/') == without_trailing(site, '/'),
        without_trailing(without_trailing(site, '/'), '/') == without_trailing(site, '/'),
        without_trailing(site, '/').len() > 0 ==> without_trailing(site, '/').last() != '/',
    decreases site.len(),
{
    assert(site.push('/').drop_last() =~= site);
    if site.len() > 0 && site.last() == '/' {
        law_trailing_slash_is_ignored(site.drop_last());
    }
}

/// A site that is pinged is pinged on the web, below its own address.
pub proof fn law_ping_stays_on_site(site: Text)
    requires
        is_web_address(site),
    ensures
        is_web_address(ping_address(site)),
        begins_with(ping_address(site), site),
{
    assert(ping_address(site).subrange(0, site.len() as int) =~= site);
}

/// A status reports success exactly if it is one of the two hundreds.
pub proof fn law_success_is_two_hundreds(code: u16)
    ensures
        is_success(code) <==> code / 100 == 2,
        is_status(code) <==> 1 <= code / 100 <= 9,
{
}

/// A web address begins with `http://` or `https://`, character by character.
pub proof fn law_web_address_has_its_scheme(site: Text)
    ensures
        is_web_address(site) <==> {
            ||| site.len() >= 7 && site[0] == 'h' && site[1] == 't' && site[2] == 't' && site[3]
                == 'p' && site[4] == ':' && site[5] == '/' && site[6] == '/'
            ||| site.len() >= 8 && site[0] == 'h' && site[1] == 't' && site[2] == 't' && site[3]
                == 'p' && site[4] == 's' && site[5] == ':' && site[6] == '/' && site[7] == '/'
        },
{
    reveal_strlit("http://");
    reveal_strlit("https://");
    law_prefix_agrees(site, "http://"@);
    law_prefix_agrees(site, "https://"@);
    if site.len() >= 7 && site[0] == 'h' && site[1] == 't' && site[2] == 't' && site[3] == 'p'
        && site[4] == ':' && site[5] == '/' && site[6] == '/' {
        assert forall|i: int| 0 <= i < "http://"@.len() implies site[i] == #[trigger]
            "http://"@[i] by {}
    }
    if site.len() >= 8 && site[0] == 'h' && site[1] == 't' && site[2] == 't' && site[3] == 'p'
        && site[4] == 's' && site[5] == ':' && site[6] == '/' && site[7] == '/' {
        assert forall|i: int| 0 <= i < "https://"@.len() implies site[i] == #[trigger]
            "https://"@[i] by {}
    }
    if begins_with(site, "http://"@) {
        assert("http://"@[0] == 'h' && "http://"@[1] == 't' && "http://"@[2] == 't' && "http://"@[3]
            == 'p' && "http://"@[4] == ':' && "http://"@[5] == '/' && "http://"@[6] == '/');
    }
    if begins_with(site, "https://"@) {
        assert("https://"@[0] == 'h' && "https://"@[1] == 't' && "https://"@[2] == 't'
            && "https://"@[3] == 'p' && "https://"@[4] == 's' && "https://"@[5] == ':'
            && "https://"@[6] == '/' && "https://"@[7] == '/');
    }
}

/// A site's address is what is left of the text without the white space around it and the slashes
/// behind it; nothing else is taken away, and no slash is left at its end.
pub proof fn law_site_address_is_middle(text: Text)
    ensures
        exists|from: int, to: int, until: int|
            #![trigger text.subrange(from, to), text.subrange(from, until)]
            0 <= from <= to <= until <= text.len() && site_address(text) == text.subrange(from, to)
                && (forall|i: int| to <= i < until ==> #[trigger] text[i] == '/') && (forall|i: int|
                0 <= i < from || until <= i < text.len() ==> white_space(#[trigger] text[i])) && (to
                > from ==> text[to - 1] != '/'),
{
    law_trim_removes_white_space_only(text);
    let (from, until) = choose|from: int, until: int|
        0 <= from <= until <= text.len() && trimmed(text) == #[trigger] text.subrange(from, until)
            && (forall|i: int|
            0 <= i < from || until <= i < text.len() ==> white_space(#[trigger] text[i]));
    let core = trimmed(text);
    law_strip_removes_run_only(core, '/');
    let kept = choose|kept: int|
        0 <= kept <= core.len() && without_trailing(core, '/') == #[trigger] core.take(kept) && (
        forall|i: int| kept <= i < core.len() ==> #[trigger] core[i] == '/') && (kept > 0
            ==> core[kept - 1] != '/');
    let to = from + kept;
    assert(site_address(text) =~= text.subrange(from, to));
    assert forall|i: int| to <= i < until implies #[trigger] text[i] == '/' by {
        assert(core[i - from] == text[i]);
    }
    assert(to > from ==> text[to - 1] == core[kept - 1]);
    assert(text.subrange(from, until) == core);
}

/// A site that is a web address is pinged below its address, at the path of the API's ping; any
/// other is refused by its name.
pub proof fn law_ping_is_at_api_path(res: Result<String, String>, site: Text)
    requires
        pings(res, site),
    ensures
        res is Ok <==> is_web_address(site),
        res matches Ok(url) ==> url@.take(site.len() as int) == site && url@.skip(site.len() as int)
            == "/api/v4/site/ping"@,
        res matches Err(message) ==> message@ == "invalid site url: "@ + site,
{
    if let Ok(url) = res {
        assert(url@.take(site.len() as int) =~= site);
        assert(url@.skip(site.len() as int) =~= "/api/v4/site/ping"@);
    }
}

/// A failure report holds the URL and both notations of the error, each behind its name, and then
/// one line for each cause, numbered from nought on in their order.
pub proof fn law_failure_report_is_complete(
    url: Text,
    display: Text,
    debug: Text,
    causes: Texts,
    cause: Text,
)
    ensures
        failure_report(url, display, debug, Seq::empty()) == "request failed\nURL: "@ + url
            + "\nDisplay: "@ + display + "\nDebug: "@ + debug,
        failure_report(url, display, debug, causes.push(cause)) == failure_report(
            url,
            display,
            debug,
            causes,
        ) + ("\nCaused by ["@ + decimal(causes.len()) + "]: "@ + cause),
{
    assert(causes.push(cause).drop_last() =~= causes);
    assert(failure_report(url, display, debug, Seq::empty()) =~= "request failed\nURL: "@ + url
        + "\nDisplay: "@ + display + "\nDebug: "@ + debug);
    assert(failure_report(url, display, debug, causes.push(cause)) =~= failure_report(
        url,
        display,
        debug,
        causes,
    ) + ("\nCaused by ["@ + decimal(causes.len()) + "]: "@ + cause));
}

/// A complaint about a status holds the status and the whole body.
pub proof fn law_complaint_holds_body(status: Text, body: Text)
    ensures
        status_complaint(status, body).skip(
            status_complaint(status, body).len() - body.len(),
        ) == body,
        status_complaint(status, body).take(
            status_complaint(status, body).len() - body.len(),
        ) == "http status error: "@ + status + "\nbody: "@,
{
    assert(status_complaint(status, body).skip(
        status_complaint(status, body).len() - body.len(),
    ) =~= body);
    assert(status_complaint(status, body).take(
        status_complaint(status, body).len() - body.len(),
    ) =~= "http status error: "@ + status + "\nbody: "@);
}


/// A request for the user interface gives back the reply as it is, whatever its status and its
/// body; it fails only where the body could not be read.
pub proof fn law_any_reply_is_given_back(status: u16, body: Result<Text, Text>)
    ensures
        http_reply(status, body) is Ok <==> body is Ok,
        body matches Ok(text) ==> http_reply(status, body) == Ok::<(u16, Text), Text>(
            (status, text),
        ),
        body matches Err(error) ==> http_reply(status, body) == Err::<(u16, Text), Text>(
            "read response body failed: "@ + error,
        ),
{
}

/// A ping succeeds exactly with a body that could be read and a status of the two hundreds, and
/// then gives back the body as it is.
pub proof fn law_ping_gives_back_body(status: u16, body: Result<Text, Text>)
    ensures
        ping_reply(status, body) is Ok <==> body is Ok && status / 100 == 2,
        ping_reply(status, body) matches Ok(text) ==> body == Ok::<Text, Text>(text),
        body matches Ok(text) ==> (status / 100 != 2 ==> ping_reply(status, body) == Err::<
            Text,
            Text,
        >("http status error: "@ + status_display(status) + "\nbody: "@ + text)),
        body matches Err(error) ==> ping_reply(status, body) == Err::<Text, Text>(
            "read response body failed: "@ + error,
        ),
{
}


} // verus!
