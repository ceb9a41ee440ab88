//! The rules of a submission that need no file and no network: which
//! authentication is served, how the pasted credentials are read, and which
//! fields the upload carries.

use crate::text::{chars_of, is_space, same_text, text_of};
use vstd::prelude::*;
use vstd::string::StringExecFns;

verus! {

/// What the project file says of the submission.
#[derive(Debug, PartialEq, Eq)]
pub struct SubmitConfig {
    pub course_name: String,
    pub semester: String,
    pub project_number: String,
    pub course_key: String,
    pub authentication: String,
    pub base_url: String,
    pub submit_url: String,
}

/// The credentials of the submitter.
#[derive(Debug, PartialEq, Eq)]
pub struct SubmitUser {
    pub class_account: String,
    pub one_time_password: String,
}

/// The one kind of authentication that is served.
pub open spec fn served_authentication() -> Seq<char> {
    "cas"@
}

/// Tells whether the kind of authentication that the project file asks for
/// is served.
pub fn authentication_is_served(kind: &str) -> (served: bool)
    ensures
        served == (kind@ == served_authentication()),
{
    same_text(kind, "cas")
}

/// The files that say what to ignore and what to include are not honored yet.
/// Gives the names of those that are present, so that the caller can warn.
pub fn unhonored_files(ignore_present: bool, include_present: bool) -> (names: Vec<&'static str>)
    ensures
        names@.len() == (if ignore_present { 1int } else { 0 }) + (if include_present { 1int } else { 0 }),
        ignore_present ==> names@[0]@ == ".submitIgnore"@,
        include_present ==> names@[names@.len() - 1]@ == ".submitInclude"@,
{
    let mut names: Vec<&'static str> = Vec::new();
    if ignore_present {
        names.push(".submitIgnore");
    }
    if include_present {
        names.push(".submitInclude");
    }
    names
}

/// The address of the page that shows the credentials: the base address of
/// the server, the path of the page, and the query.
pub open spec fn status_address(base_url: Seq<char>, query: Seq<char>) -> Seq<char> {
    base_url + "/view/submitStatus.jsp"@ + query
}

/// Writes the address of the page that shows the credentials.
pub fn status_url(base_url: &str, query: &str) -> (url: String)
    ensures
        url@ == status_address(base_url@, query@),
{
    let mut url = String::from_str(base_url);
    url.append("/view/submitStatus.jsp");
    url.append(query);
    url
}

/// The text without the white space in front of it.
pub open spec fn trim_start(text: Seq<char>) -> Seq<char>
    decreases text.len(),
{
    if text.len() > 0 && is_space(text[0]) {
        trim_start(text.skip(1))
    } else {
        text
    }
}

/// The text without the white space at its end.
pub open spec fn trim_end(text: Seq<char>) -> Seq<char>
    decreases text.len(),
{
    if text.len() > 0 && is_space(text.last()) {
        trim_end(text.drop_last())
    } else {
        text
    }
}

/// The text without the white space around it.
pub open spec fn trimmed(text: Seq<char>) -> Seq<char> {
    trim_end(trim_start(text))
}

/// The place of the first `c` in `text`, or the length of `text` where it
/// holds none.
pub open spec fn first_index(text: Seq<char>, c: char) -> int
    decreases text.len(),
{
    if text.len() == 0 || text[0] == c {
        0
    } else {
        1 + first_index(text.skip(1), c)
    }
}

/// The credentials in a pasted line: the text around the first `;` of the
/// trimmed line, the account before it and the password after it. A line
/// without `;` holds none.
pub open spec fn pasted(line: Seq<char>) -> Option<(Seq<char>, Seq<char>)> {
    let text = trimmed(line);
    let at = first_index(text, ';');
    if at < text.len() {
        Some((text.take(at), text.skip(at + 1)))
    } else {
        None
    }
}

proof fn lemma_first_index(text: Seq<char>, c: char, at: int)
    requires
        0 <= at <= text.len(),
        forall|j: int| 0 <= j < at ==> text[j] != c,
        at < text.len() ==> text[at] == c,
    ensures
        first_index(text, c) == at,
    decreases text.len(),
{
    if at > 0 {
        lemma_first_index(text.skip(1), c, at - 1);
    }
}

/// Reads the credentials from a pasted line.
pub fn parse_paste(line: &str) -> (r: Option<SubmitUser>)
    ensures
        match r {
            Some(user) => pasted(line@) == Some(
                (user.class_account@, user.one_time_password@),
            ),
            None => pasted(line@) is None,
        },
{
    let chars = chars_of(line);
    let mut start: usize = 0;
    assert(chars@.skip(0) =~= chars@);
    while start < chars.len() && chars[start].is_whitespace()
        invariant
            start <= chars@.len(),
            trim_start(chars@) == trim_start(chars@.skip(start as int)),
        decreases chars@.len() - start,
    {
        assert(chars@.skip(start as int).skip(1) =~= chars@.skip(start + 1));
        start += 1;
    }
    let ghost rest = chars@.skip(start as int);
    assert(trim_start(chars@) == rest);
    let mut end: usize = chars.len();
    assert(rest.take(end - start) =~= rest);
    while end > start && chars[end - 1].is_whitespace()
        invariant
            start <= end <= chars@.len(),
            rest == chars@.skip(start as int),
            trim_end(rest) == trim_end(rest.take(end - start)),
        decreases end,
    {
        assert(rest.take(end - start).drop_last() =~= rest.take(end - 1 - start));
        end -= 1;
    }
    let ghost text = rest.take(end - start);
    assert(trim_end(rest) == text);
    assert(text =~= chars@.subrange(start as int, end as int));
    let mut at: usize = start;
    while at < end && chars[at] != ';'
        invariant
            start <= at <= end <= chars@.len(),
            text == chars@.subrange(start as int, end as int),
            forall|j: int| 0 <= j < at - start ==> text[j] != ';',
        decreases end - at,
    {
        at += 1;
    }
    proof {
        lemma_first_index(text, ';', at - start);
    }
    if at < end {
        let class_account = text_of(chars.as_slice(), start, at);
        let one_time_password = text_of(chars.as_slice(), at + 1, end);
        assert(class_account@ =~= text.take(at - start));
        assert(one_time_password@ =~= text.skip(at - start + 1));
        Some(SubmitUser { class_account, one_time_password })
    } else {
        None
    }
}

/// The name of the form field that carries the archive.
pub const ARCHIVE_FIELD: &'static str = "submittedFiles";

/// The file name under which the archive is attached.
pub const ARCHIVE_FILE_NAME: &'static str = "submit.zip";

/// The decimal digit for a number below ten.
pub open spec fn digit(d: nat) -> char {
    seq!['0', '1', '2', '3', '4', '5', '6', '7', '8', '9'][d as int]
}

/// The number in decimal notation.
pub open spec fn decimal(n: nat) -> Seq<char>
    decreases n,
{
    if n < 10 {
        seq![digit(n)]
    } else {
        decimal(n / 10).push(digit(n % 10))
    }
}

fn digit_char(d: u8) -> (c: char)
    requires
        d < 10,
    ensures
        c == digit(d as nat),
{
    if d == 0 {
        '0'
    } else if d == 1 {
        '1'
    } else if d == 2 {
        '2'
    } else if d == 3 {
        '3'
    } else if d == 4 {
        '4'
    } else if d == 5 {
        '5'
    } else if d == 6 {
        '6'
    } else if d == 7 {
        '7'
    } else if d == 8 {
        '8'
    } else {
        '9'
    }
}

/// Appends `n` in decimal notation to `text`.
pub fn push_decimal(text: &mut String, n: u128)
    ensures
        final(text)@ == old(text)@ + decimal(n as nat),
    decreases n,
{
    if n >= 10 {
        push_decimal(text, n / 10);
    }
    let d = (n % 10) as u8;
    text.push(digit_char(d));
    assert(text@ =~= old(text)@ + decimal(n as nat));
}

/// The text fields of the upload, in their order, each with its name and its
/// value. `millis` is the time of the submission in milliseconds since the
/// start of 1970.
pub open spec fn upload_fields(config: SubmitConfig, user: SubmitUser, millis: nat) -> Seq<
    (Seq<char>, Seq<char>),
> {
    seq![
        ("submitclientVersion"@, "0.3.1"@),
        ("cvstagTimestamp"@, seq!['t'] + decimal(millis)),
        ("classAccount"@, user.class_account@),
        ("projectNumber"@, config.project_number@),
        ("authentication.type"@, "cas"@),
        ("oneTimePassword"@, user.one_time_password@),
        ("baseURL"@, config.base_url@),
        ("semester"@, config.semester@),
        ("courseKey"@, config.course_key@),
        ("hasFailedCVSOperation"@, "false"@),
        ("submitClientTool"@, "EclipsePlugin"@),
    ]
}

/// The texts of a list of pairs of strings, in order.
pub open spec fn pair_texts(pairs: Seq<(String, String)>) -> Seq<(Seq<char>, Seq<char>)> {
    pairs.map_values(|pair: (String, String)| (pair.0@, pair.1@))
}

fn field(name: &str, value: &str) -> (pair: (String, String))
    ensures
        pair.0@ == name@,
        pair.1@ == value@,
{
    (String::from_str(name), String::from_str(value))
}

/// Lists the text fields of the upload.
pub fn form_fields(config: &SubmitConfig, user: &SubmitUser, millis: u128) -> (fields: Vec<
    (String, String),
>)
    ensures
        pair_texts(fields@) == upload_fields(*config, *user, millis as nat),
{
    let mut stamp = String::new();
    stamp.push('t');
    push_decimal(&mut stamp, millis);
    assert(stamp@ =~= seq!['t'] + decimal(millis as nat));
    let mut fields: Vec<(String, String)> = Vec::new();
    fields.push(field("submitclientVersion", "0.3.1"));
    fields.push(field("cvstagTimestamp", stamp.as_str()));
    fields.push(field("classAccount", user.class_account.as_str()));
    fields.push(field("projectNumber", config.project_number.as_str()));
    fields.push(field("authentication.type", "cas"));
    fields.push(field("oneTimePassword", user.one_time_password.as_str()));
    fields.push(field("baseURL", config.base_url.as_str()));
    fields.push(field("semester", config.semester.as_str()));
    fields.push(field("courseKey", config.course_key.as_str()));
    fields.push(field("hasFailedCVSOperation", "false"));
    fields.push(field("submitClientTool", "EclipsePlugin"));
    assert(pair_texts(fields@) =~= upload_fields(*config, *user, millis as nat));
    fields
}

} // verus!
