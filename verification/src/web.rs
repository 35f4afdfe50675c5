use vstd::prelude::*;
use vstd::utf8::*;
use vstd::string::StringSliceAdditionalSpecFns;
use crate::decimal::{decimal, decimal_u64};
use crate::text::utf8_len;

verus! {

/// Channel that receives GitHub push summaries.
pub const CID_GITHUB: u64 = 478623542380855306;

/// Longest relayed message, in bytes of UTF-8.
pub const MAX_CONTENT_BYTES: usize = 2000;

/// HTTP status of a successful request.
pub const STATUS_OK: u16 = 200;

/// HTTP status of a request with a wrong token.
pub const STATUS_FORBIDDEN: u16 = 403;

/// HTTP status of a request that failed.
pub const STATUS_INTERNAL_ERROR: u16 = 500;

#[verifier::external_type_specification]
#[verifier::external_body]
pub struct ExUtf8Error(core::str::Utf8Error);

#[verifier::external_type_specification]
#[verifier::external_body]
pub struct ExRegex(regex::Regex);

#[verifier::external_type_specification]
#[verifier::external_body]
pub struct ExRegexError(regex::Error);

/// `core::str::from_utf8` fails exactly on bytes that are not UTF-8, and
/// otherwise gives a string slice over those very bytes.
pub assume_specification<'a>[ core::str::from_utf8 ](v: &'a [u8]) -> (r: Result<&'a str, core::str::Utf8Error>)
    ensures
        r is Ok <==> valid_utf8(v@),
        r matches Ok(s) ==> s.spec_bytes() == v@,
;

/// What `regex::Regex::replace` returns for a regular expression compiled
/// from `pattern`, run on `text` with the literal replacement `replacement`.
pub uninterp spec fn regex_replaced(pattern: Seq<char>, text: Seq<char>, replacement: Seq<char>) -> Seq<char>;

/// Whether `regex::Regex::new` accepts `pattern`: the pattern is valid
/// syntax and fits the crate's default size limits.
pub uninterp spec fn regex_compiles(pattern: Seq<char>) -> bool;

/// A regular expression together with the text of the pattern it was
/// compiled from.
pub struct CompiledPattern {
    re: regex::Regex,
    source: String,
}

/// Compiles `pattern` with `regex::Regex::new`, which succeeds exactly on the
/// patterns named by [`regex_compiles`]; the compiled expression is kept
/// beside a copy of the pattern's text.
#[verifier::external_body]
fn regex_new(pattern: &str) -> (r: Option<CompiledPattern>)
    ensures
        r is Some <==> regex_compiles(pattern@),
        r matches Some(c) ==> c.source@ == pattern@,
{
    match regex::Regex::new(pattern) {
        Ok(re) => Some(CompiledPattern { re, source: pattern.to_owned() }),
        Err(_) => None,
    }
}

impl CompiledPattern {
    /// The pattern this expression was compiled from.
    pub closed spec fn pattern(&self) -> Seq<char> {
        self.source@
    }

    /// Compiles `pattern`, which succeeds exactly when the regex crate accepts
    /// it; the result remembers `pattern`.
    pub fn compile(pattern: &str) -> (r: Option<CompiledPattern>)
        ensures
            r is Some <==> regex_compiles(pattern@),
            r matches Some(c) ==> c.pattern() == pattern@,
    {
        regex_new(pattern)
    }
}

/// Calls `regex::Regex::replace`, which replaces the leftmost match of the
/// expression in `text` by `replacement`. Its result is named by
/// [`regex_replaced`] over the pattern text kept beside the expression, which
/// [`regex_new`] alone fills in; the replacement holds no `$`, so it is taken
/// literally.
#[verifier::external_body]
fn regex_replace(c: &CompiledPattern, text: &str, replacement: &str) -> (r: String)
    ensures
        r@ == regex_replaced(c.source@, text@, replacement@),
{
    c.re.replace(text, replacement).into_owned()
}

/// The answer to an HTTP request: its status and its text.
pub struct WebResponse {
    pub status: u16,
    pub body: String,
}

/// The author or repository of a GitHub push.
pub struct AuthorOrRepo {
    pub name: String,
}

/// One commit of a GitHub push.
pub struct Commit {
    pub id: String,
    pub message: String,
    pub author: AuthorOrRepo,
}

/// The parts of a GitHub push event that the relay reads.
pub struct Github {
    pub git_ref: String,
    pub repository: AuthorOrRepo,
    pub commits: Vec<Commit>,
}

/// The form fields of a relay request.
pub struct Body {
    pub activity: String,
    pub content: String,
    pub channel_id: u64,
}

impl Body {
    /// Channel a relayed message goes to when the request names none.
    pub fn default_channel() -> (r: u64)
        ensures
            r == 544557150064738315,
    {
        544557150064738315
    }
}

/// What the handler does after the request's token and body were checked.
pub enum RequestStep {
    /// Answer at once.
    Respond(WebResponse),
    /// Read the text as a GitHub push event, then call [`github_relay`].
    ParseGithub(String),
    /// Read the text as form fields, then call [`message_relay`].
    ParseQuery(String),
}

/// A message to post in a channel, and the answer to give once it is posted.
/// When posting fails the answer is [`internal_error`].
pub struct Relay {
    pub channel_id: u64,
    pub content: String,
    pub on_success: WebResponse,
}

/// Text of the answer to a request with a wrong token.
pub open spec fn forbidden_text(token: Seq<char>) -> Seq<char> {
    "Invalid token "@ + token
}

/// The answer to a request that failed on the way.
pub fn internal_error() -> (r: WebResponse)
    ensures
        r.status == STATUS_INTERNAL_ERROR,
        r.body@ == "Internal error"@,
{
    WebResponse { status: STATUS_INTERNAL_ERROR, body: String::from_str("Internal error") }
}

/// What [`begin_request`] makes of a request: a token other than `expected`
/// is refused with 403 and the token named; a body that is not UTF-8 fails
/// with 500; otherwise the text goes on to be read as a push event when
/// `github` is set, as form fields if not.
pub open spec fn request_begun(token: Seq<char>, github: bool, expected: Seq<char>, body: Seq<u8>, r: RequestStep) -> bool {
    &&& token != expected ==> (r matches RequestStep::Respond(resp) && resp.status == STATUS_FORBIDDEN
        && resp.body@ == forbidden_text(token))
    &&& token == expected && !valid_utf8(body) ==> (r matches RequestStep::Respond(resp) && resp.status
        == STATUS_INTERNAL_ERROR && resp.body@ == "Internal error"@)
    &&& token == expected && valid_utf8(body) && github ==> (r matches RequestStep::ParseGithub(text)
        && text@ == decode_utf8(body))
    &&& token == expected && valid_utf8(body) && !github ==> (r matches RequestStep::ParseQuery(text)
        && text@ == decode_utf8(body))
}

/// Whether a relay's outcome answers as relays do: 200 once the message is
/// posted, 500 when the relay could not be made.
pub open spec fn relay_statuses(r: Result<Relay, WebResponse>) -> bool {
    match r {
        Ok(relay) => relay.on_success.status == STATUS_OK,
        Err(resp) => resp.status == STATUS_INTERNAL_ERROR,
    }
}

/// The answer to a request once its relay's message was posted (`sent`) or
/// failed to be: the relay's own answer, or 500.
pub fn finish_request(relay: Relay, sent: bool) -> (r: WebResponse)
    ensures
        sent ==> r == relay.on_success,
        !sent ==> r.status == STATUS_INTERNAL_ERROR && r.body@ == "Internal error"@,
{
    if sent {
        relay.on_success
    } else {
        internal_error()
    }
}

/// A request is answered 403 exactly when its token is wrong. Any other
/// answer given before a message is posted is 500; with the right token the
/// request goes on to be parsed.
pub proof fn law_request_status(token: Seq<char>, github: bool, expected: Seq<char>, body: Seq<u8>, step: RequestStep)
    requires
        request_begun(token, github, expected, body, step),
    ensures
        step matches RequestStep::Respond(resp) ==> (resp.status == STATUS_FORBIDDEN <==> token != expected),
        step matches RequestStep::Respond(resp) ==> (resp.status == STATUS_FORBIDDEN || resp.status
            == STATUS_INTERNAL_ERROR),
        !(step is Respond) ==> token == expected,
{
}

/// After a relay is attempted, the answer is 200 only when the relay was
/// made and its message posted, and 500 otherwise; it is never 403.
pub proof fn law_relay_answer(relay: Result<Relay, WebResponse>, sent: bool, answer: WebResponse)
    requires
        relay_statuses(relay),
        relay matches Err(resp) ==> answer == resp,
        relay matches Ok(r) ==> (sent ==> answer == r.on_success) && (!sent ==> answer.status
            == STATUS_INTERNAL_ERROR),
    ensures
        answer.status == STATUS_OK <==> (relay is Ok && sent),
        answer.status != STATUS_OK ==> answer.status == STATUS_INTERNAL_ERROR,
{
}

/// Checks the request's token and decodes its body, as [`request_begun`]
/// states.
pub fn begin_request(token: &String, github: bool, expected_token: &String, body: &[u8]) -> (r: RequestStep)
    ensures
        request_begun(token@, github, expected_token@, body@, r),
{
    if !token.eq(expected_token) {
        let mut text = String::from_str("Invalid token ");
        text.append(token.as_str());
        return RequestStep::Respond(WebResponse { status: STATUS_FORBIDDEN, body: text });
    }
    match core::str::from_utf8(body) {
        Ok(s) => {
            proof {
                broadcast use group_utf8_lib;
                assert(decode_utf8(encode_utf8(s@)) == s@);
            }
            let text = s.to_owned();
            if github {
                RequestStep::ParseGithub(text)
            } else {
                RequestStep::ParseQuery(text)
            }
        },
        Err(_) => RequestStep::Respond(internal_error()),
    }
}

/// What follows the last `/` of a string, or the whole string when it holds
/// none.
pub open spec fn last_segment(s: Seq<char>) -> Seq<char>
    decreases s.len(),
{
    if s.len() == 0 {
        s
    } else if s.last() == '/' {
        Seq::empty()
    } else {
        last_segment(s.drop_last()).push(s.last())
    }
}

/// The branch shown is what follows the last `/`: for any `p`, a `/` and a
/// `b` holding no `/`, the segment is `b`; a text holding no `/` is its own
/// segment.
pub proof fn law_last_segment_after_last_slash(p: Seq<char>, b: Seq<char>)
    requires
        forall|i: int| 0 <= i < b.len() ==> b[i] != '/',
    ensures
        last_segment(p + seq!['/'] + b) == b,
        last_segment(b) == b,
    decreases b.len(),
{
    let s = p + seq!['/'] + b;
    if b.len() == 0 {
        assert(s.last() == '/');
    } else {
        let init = b.drop_last();
        assert forall|i: int| 0 <= i < init.len() implies init[i] != '/' by {
            assert(init[i] == b[i]);
        }
        law_last_segment_after_last_slash(p, init);
        assert(s.last() == b.last());
        assert(s.drop_last() =~= p + seq!['/'] + init);
        assert(init.push(b.last()) =~= b);
    }
}

/// The last `/`-separated part of `s`, as `s.split('/').last()` gives it.
pub fn last_path_segment(s: &str) -> (r: String)
    ensures
        r@ == last_segment(s@),
{
    let n = s.unicode_len();
    let mut i = n;
    proof {
        assert(s@.take(n as int) =~= s@);
        assert(last_segment(s@) + s@.subrange(n as int, n as int) =~= last_segment(s@));
    }
    while i > 0 && s.get_char(i - 1) != '/'
        invariant
            n == s@.len(),
            i <= n,
            last_segment(s@) == last_segment(s@.take(i as int)) + s@.subrange(i as int, n as int),
        decreases i,
    {
        proof {
            let t = s@.take(i as int);
            assert(t.drop_last() =~= s@.take(i - 1));
            assert(s@.subrange(i - 1, n as int) =~= seq![s@[i - 1]] + s@.subrange(i as int, n as int));
            assert(last_segment(t) == last_segment(s@.take(i - 1)).push(s@[i - 1]));
            assert(last_segment(s@.take(i - 1)).push(s@[i - 1]) + s@.subrange(i as int, n as int)
                =~= last_segment(s@.take(i - 1)) + s@.subrange(i - 1, n as int));
        }
        i = i - 1;
    }
    proof {
        if i == 0 {
            assert(s@.take(0).len() == 0);
        } else {
            assert(s@.take(i as int).last() == '/');
        }
        assert(s@.take(0) + s@.subrange(0, n as int) =~= s@.subrange(0, n as int));
        assert(Seq::<char>::empty() + s@.subrange(i as int, n as int) =~= s@.subrange(i as int, n as int));
    }
    s.substring_char(i, n).to_owned()
}

/// Whether a commit id can be cut after its seventh byte without splitting a
/// character (a shorter id cannot be cut at all).
pub open spec fn commit_id_cuttable(id: Seq<char>) -> bool {
    is_char_boundary(encode_utf8(id), 7)
}

/// The first seven bytes of a commit id, as characters.
pub open spec fn short_commit_id(id: Seq<char>) -> Seq<char> {
    decode_utf8(encode_utf8(id).subrange(0, 7))
}

/// One commit's part of a push summary.
pub open spec fn commit_line(id: Seq<char>, author: Seq<char>, message: Seq<char>) -> Seq<char> {
    "$Commit #"@ + short_commit_id(id) + " by "@ + author + "\n "@ + message + "\n\n"@
}

/// The pattern that finds a line break.
pub open spec fn line_break_pattern() -> Seq<char> {
    "(?:\r\n|\r|\n)"@
}

/// A commit message with its first line break replaced by a line break and a
/// space.
pub open spec fn flattened_message(pattern: Seq<char>, message: Seq<char>) -> Seq<char> {
    regex_replaced(pattern, message, "\n "@)
}

/// The commit part of a push summary: one line per commit, in order.
pub open spec fn commits_text(pattern: Seq<char>, commits: Seq<Commit>) -> Seq<char>
    decreases commits.len(),
{
    if commits.len() == 0 {
        Seq::empty()
    } else {
        let c = commits.last();
        commits_text(pattern, commits.drop_last()) + commit_line(
            c.id@,
            c.author.name@,
            flattened_message(pattern, c.message@),
        )
    }
}

/// The message that summarises a push.
pub open spec fn push_summary(pattern: Seq<char>, push: Github) -> Seq<char> {
    "```md\n"@ + decimal(push.commits@.len()) + " new commit(s) of "@ + push.repository.name@ + ":"@
        + last_segment(push.git_ref@) + "\n "@ + commits_text(pattern, push.commits@) + " ```"@
}

/// Whether every commit id of a push can be shortened.
pub open spec fn push_ids_cuttable(push: Github) -> bool {
    forall|i: int| 0 <= i < push.commits@.len() ==> commit_id_cuttable(#[trigger] push.commits@[i].id@)
}

/// One commit's line of a push summary, given its message with the line
/// break already replaced.
pub fn format_commit_line(id: &str, author: &str, message: &str) -> (r: String)
    requires
        commit_id_cuttable(id@),
    ensures
        r@ == commit_line(id@, author@, message@),
{
    let (head, _tail) = id.split_at(7);
    proof {
        broadcast use group_utf8_lib;
        assert(head.spec_bytes() =~= encode_utf8(id@).subrange(0, 7));
        assert(decode_utf8(encode_utf8(head@)) == head@);
        reveal_strlit("$Commit #");
        reveal_strlit(" by ");
        reveal_strlit("\n ");
        reveal_strlit("\n\n");
    }
    let mut line = String::from_str("$Commit #");
    line.append(head);
    line.append(" by ");
    line.append(author);
    line.append("\n ");
    line.append(message);
    line.append("\n\n");
    proof {
        assert(line@ =~= commit_line(id@, author@, message@));
    }
    line
}

/// The summary of a push, given the compiled line-break expression.
pub fn summarize_push(pattern: &CompiledPattern, push: &Github) -> (r: String)
    requires
        push_ids_cuttable(*push),
        push.commits@.len() <= u64::MAX,
    ensures
        r@ == push_summary(pattern.pattern(), *push),
{
    let ghost p = pattern.pattern();
    let mut text = String::new();
    let mut i: usize = 0;
    while i < push.commits.len()
        invariant
            i <= push.commits@.len(),
            push_ids_cuttable(*push),
            p == pattern.pattern(),
            text@ == commits_text(p, push.commits@.take(i as int)),
        decreases push.commits@.len() - i,
    {
        let commit = &push.commits[i];
        assert(commit_id_cuttable(push.commits@[i as int].id@));
        let flat = regex_replace(pattern, commit.message.as_str(), "\n ");
        proof { reveal_strlit("\n "); }
        let line = format_commit_line(commit.id.as_str(), commit.author.name.as_str(), flat.as_str());
        text.append(line.as_str());
        proof {
            let taken = push.commits@.take(i + 1);
            assert(taken.drop_last() =~= push.commits@.take(i as int));
            assert(taken.last() == push.commits@[i as int]);
        }
        i = i + 1;
    }
    proof {
        assert(push.commits@.take(i as int) =~= push.commits@);
        reveal_strlit("```md\n");
        reveal_strlit(" new commit(s) of ");
        reveal_strlit(":");
        reveal_strlit("\n ");
        reveal_strlit(" ```");
    }
    let count = decimal_u64(push.commits.len() as u64);
    let segment = last_path_segment(push.git_ref.as_str());
    let mut summary = String::from_str("```md\n");
    summary.append(count.as_str());
    summary.append(" new commit(s) of ");
    summary.append(push.repository.name.as_str());
    summary.append(":");
    summary.append(segment.as_str());
    summary.append("\n ");
    summary.append(text.as_str());
    summary.append(" ```");
    proof {
        assert(summary@ =~= push_summary(p, *push));
    }
    summary
}

/// The relay of a GitHub push: its summary, posted to [`CID_GITHUB`], answered
/// with an empty 200 once posted. When the line-break expression does not
/// compile, the request fails with 500.
pub fn github_relay(push: &Github) -> (r: Result<Relay, WebResponse>)
    requires
        push_ids_cuttable(*push),
        push.commits@.len() <= u64::MAX,
    ensures
        r matches Ok(relay) ==> relay.channel_id == CID_GITHUB && relay.content@ == push_summary(
            line_break_pattern(),
            *push,
        ) && relay.on_success.status == STATUS_OK && relay.on_success.body@.len() == 0,
        r is Ok <==> regex_compiles(line_break_pattern()),
        r matches Err(resp) ==> resp.status == STATUS_INTERNAL_ERROR && resp.body@ == "Internal error"@,
        relay_statuses(r),
{
    match CompiledPattern::compile("(?:\r\n|\r|\n)") {
        Some(pattern) => {
            let content = summarize_push(&pattern, push);
            Ok(Relay {
                channel_id: CID_GITHUB,
                content,
                on_success: WebResponse { status: STATUS_OK, body: String::new() },
            })
        },
        None => Err(internal_error()),
    }
}

/// Whether a relayed message has an acceptable size: 1 to
/// [`MAX_CONTENT_BYTES`] bytes.
pub open spec fn content_size_valid(content: Seq<char>) -> bool {
    1 <= encode_utf8(content).len() <= MAX_CONTENT_BYTES
}

/// The relay of a form request: its content, posted to its channel and
/// answered with 200 once posted; content of a bad size fails with 500.
pub fn message_relay(body: &Body) -> (r: Result<Relay, WebResponse>)
    ensures
        content_size_valid(body.content@) ==> (r matches Ok(relay) && relay.channel_id
            == body.channel_id && relay.content@ == body.content@ && relay.on_success.status
            == STATUS_OK && relay.on_success.body@ == "Successfully passed message"@),
        !content_size_valid(body.content@) ==> (r matches Err(resp) && resp.status
            == STATUS_INTERNAL_ERROR && resp.body@ == "Content size is invalid"@),
        relay_statuses(r),
{
    let size = utf8_len(body.content.as_str());
    if size < 1 || size > MAX_CONTENT_BYTES {
        return Err(
            WebResponse {
                status: STATUS_INTERNAL_ERROR,
                body: String::from_str("Content size is invalid"),
            },
        );
    }
    Ok(
        Relay {
            channel_id: body.channel_id,
            content: body.content.clone(),
            on_success: WebResponse {
                status: STATUS_OK,
                body: String::from_str("Successfully passed message"),
            },
        },
    )
}

} // verus!
