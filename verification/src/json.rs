//! Users as JSON text: reading the body of a request, writing the body of a
//! response. The JSON grammar itself is `serde_json`'s.

use crate::decimal::{format_i32, numeral_text};
use crate::user::{user_views, User, UserView};
use vstd::prelude::*;
use vstd::string::StringExecFns;

verus! {

/// `serde_json::Value`, made known so that a parsed document can be handed
/// on. Nothing inside it is visible here: what it holds is `json_content`.
#[verifier::external_type_specification]
#[verifier::external_body]
pub struct ExValue(serde_json::Value);

/// What a JSON value holds, as far as a user record reads it.
pub enum JsonView {
    Null,
    Bool,
    /// A number, with its value as an `i64` where it has one.
    Number(Option<i64>),
    Text(Seq<char>),
    Array,
    /// An object, with its members by name.
    Object(Map<Seq<char>, serde_json::Value>),
}

/// What the value `value` holds. Nothing is proved of it: the contracts of
/// `member`, `is_null`, `as_str` and `as_i64` below say, after the source of
/// `serde_json`, what each of them reads of it.
pub uninterp spec fn json_content(value: serde_json::Value) -> JsonView;

/// The value that the JSON text `text` writes; `None` where `text` is not
/// the text of one JSON value.
pub uninterp spec fn json_document(text: Seq<char>) -> Option<serde_json::Value>;

/// The JSON string literal that writes `text`, quotes included.
pub uninterp spec fn json_string(text: Seq<char>) -> Seq<char>;

/// `serde_json::from_str` at the type `serde_json::Value`. The contract
/// claims that what it returns depends on `text` alone, and gives that
/// result the name `json_document`; an error of any kind is `None`.
#[verifier::external_body]
fn parse_document(text: &str) -> (doc: Option<serde_json::Value>)
    ensures
        doc == json_document(text@),
{
    serde_json::from_str::<serde_json::Value>(text).ok()
}

/// `serde_json::Value::get` with a string index. The contract claims that it
/// gives the member `key` of an object, and `None` where the value is no
/// object or has no such member.
#[verifier::external_body]
fn member<'a>(value: &'a serde_json::Value, key: &str) -> (found: Option<&'a serde_json::Value>)
    ensures
        match found {
            Some(v) => json_content(*value) matches JsonView::Object(members)
                && members.contains_key(key@) && members[key@] == *v,
            None => !(json_content(*value) matches JsonView::Object(members)
                && members.contains_key(key@)),
        },
{
    value.get(key)
}

/// `serde_json::Value::is_null`. The contract claims that it says whether
/// the value is the JSON `null`.
pub assume_specification[ serde_json::Value::is_null ](value: &serde_json::Value) -> (b: bool)
    ensures
        b == (json_content(*value) is Null),
;

/// `serde_json::Value::as_str`. The contract claims that it gives the text
/// of a JSON string, and `None` for any other value.
pub assume_specification<'a>[ serde_json::Value::as_str ](value: &'a serde_json::Value) -> (t:
    Option<&'a str>)
    ensures
        match t {
            Some(s) => json_content(*value) == JsonView::Text(s@),
            None => !(json_content(*value) is Text),
        },
;

/// `serde_json::Value::as_i64`. The contract claims that it gives the value
/// of a JSON number as an `i64` where the number has one, and `None` for any
/// other value.
pub assume_specification[ serde_json::Value::as_i64 ](value: &serde_json::Value) -> (n: Option<
    i64,
>)
    ensures
        n == match json_content(*value) {
            JsonView::Number(i) => i,
            _ => None,
        },
;

/// `serde_json::to_string` at the type `str`: the JSON string literal for
/// `text`. The contract claims that the literal depends on `text` alone, and
/// gives it the name `json_string`. Writing a string into memory does not
/// fail; an error would come out as the empty text.
#[verifier::external_body]
fn quote(text: &str) -> (literal: String)
    ensures
        literal@ == json_string(text@),
{
    serde_json::to_string(text).unwrap_or_default()
}

/// A member of a JSON object, as far as a user record reads it.
#[derive(Debug, PartialEq, Eq)]
pub enum Member {
    /// The object has no member of that name, or the document is no object.
    Absent,
    Null,
    Text(String),
    Integer(i64),
    /// Any other value.
    Other,
}

/// A member as a mathematical value.
pub enum MemberView {
    Absent,
    Null,
    Text(Seq<char>),
    Integer(i64),
    Other,
}

impl View for Member {
    type V = MemberView;

    open spec fn view(&self) -> MemberView {
        match self {
            Member::Absent => MemberView::Absent,
            Member::Null => MemberView::Null,
            Member::Text(t) => MemberView::Text(t@),
            Member::Integer(i) => MemberView::Integer(*i),
            Member::Other => MemberView::Other,
        }
    }
}

/// Why the body of a request gives no user.
#[derive(Clone, Copy, Debug, PartialEq, Eq, Structural)]
pub enum PayloadError {
    /// The body is not the text of one JSON value.
    Syntax,
    /// The body is JSON, but not an object with a text `name`, a text `email`
    /// and an `id` that is absent, null or a 32-bit integer.
    Shape,
}

/// What holds of a JSON value that is read as a member.
pub open spec fn reading_of(value: serde_json::Value) -> MemberView {
    match json_content(value) {
        JsonView::Null => MemberView::Null,
        JsonView::Text(t) => MemberView::Text(t),
        JsonView::Number(Some(i)) => MemberView::Integer(i),
        _ => MemberView::Other,
    }
}

/// The member `key` of the document `doc`.
pub open spec fn member_view(doc: serde_json::Value, key: Seq<char>) -> MemberView {
    match json_content(doc) {
        JsonView::Object(members) => if members.contains_key(key) {
            reading_of(members[key])
        } else {
            MemberView::Absent
        },
        _ => MemberView::Absent,
    }
}

/// The user that the three members give: `name` and `email` must be text,
/// `id` absent, null or an integer that fits an `i32`.
pub open spec fn user_of_members(id: MemberView, name: MemberView, email: MemberView) -> Result<
    UserView,
    PayloadError,
> {
    match (id, name, email) {
        (MemberView::Absent, MemberView::Text(n), MemberView::Text(e)) => Ok(
            UserView { id: None, name: n, email: e },
        ),
        (MemberView::Null, MemberView::Text(n), MemberView::Text(e)) => Ok(
            UserView { id: None, name: n, email: e },
        ),
        (MemberView::Integer(i), MemberView::Text(n), MemberView::Text(e)) => if i32::MIN <= i
            <= i32::MAX {
            Ok(UserView { id: Some(i as i32), name: n, email: e })
        } else {
            Err(PayloadError::Shape)
        },
        _ => Err(PayloadError::Shape),
    }
}

/// The user that the JSON text `text` gives.
pub open spec fn decoded_user(text: Seq<char>) -> Result<UserView, PayloadError> {
    match json_document(text) {
        None => Err(PayloadError::Syntax),
        Some(doc) => user_of_members(
            member_view(doc, "id"@),
            member_view(doc, "name"@),
            member_view(doc, "email"@),
        ),
    }
}

/// A decoding result as a mathematical value.
pub open spec fn decoding_view(r: Result<User, PayloadError>) -> Result<UserView, PayloadError> {
    match r {
        Ok(user) => Ok(user@),
        Err(e) => Err(e),
    }
}

/// The JSON text of an id.
pub open spec fn id_json(id: Option<i32>) -> Seq<char> {
    match id {
        Some(i) => numeral_text(i as int),
        None => "null"@,
    }
}

/// The JSON text of a user: an object with `id`, `name` and `email`, in this
/// order and without white space.
pub open spec fn user_json(user: UserView) -> Seq<char> {
    "{\"id\":"@ + id_json(user.id) + ",\"name\":"@ + json_string(user.name) + ",\"email\":"@
        + json_string(user.email) + "}"@
}

/// The JSON texts of `users`, with a comma between each two.
pub open spec fn users_json_items(users: Seq<UserView>) -> Seq<char>
    decreases users.len(),
{
    if users.len() == 0 {
        Seq::empty()
    } else if users.len() == 1 {
        user_json(users[0])
    } else {
        users_json_items(users.drop_last()) + ","@ + user_json(users.last())
    }
}

/// The JSON text of a list of users: an array of their texts.
pub open spec fn users_json(users: Seq<UserView>) -> Seq<char> {
    "["@ + users_json_items(users) + "]"@
}

/// Reads a JSON value as a member.
fn read_value(value: &serde_json::Value) -> (m: Member)
    ensures
        m@ == reading_of(*value),
{
    if value.is_null() {
        return Member::Null;
    }
    match value.as_str() {
        Some(t) => Member::Text(t.to_owned()),
        None => match value.as_i64() {
            Some(i) => Member::Integer(i),
            None => Member::Other,
        },
    }
}

/// Reads the member `key` of the document `doc`.
fn read_member(doc: &serde_json::Value, key: &str) -> (m: Member)
    ensures
        m@ == member_view(*doc, key@),
{
    match member(doc, key) {
        Some(value) => read_value(value),
        None => Member::Absent,
    }
}

/// The user that three members of a document give.
pub fn user_from_members(id: Member, name: Member, email: Member) -> (r: Result<User, PayloadError>)
    ensures
        decoding_view(r) == user_of_members(id@, name@, email@),
{
    let id: Option<i32> = match id {
        Member::Absent => None,
        Member::Null => None,
        Member::Integer(i) => {
            if i < -2147483648 || i > 2147483647 {
                return Err(PayloadError::Shape);
            }
            Some(i as i32)
        },
        _ => {
            return Err(PayloadError::Shape);
        },
    };
    match (name, email) {
        (Member::Text(name), Member::Text(email)) => Ok(User { id, name, email }),
        _ => Err(PayloadError::Shape),
    }
}

/// Reads a user from JSON text.
pub fn decode_user(text: &str) -> (r: Result<User, PayloadError>)
    ensures
        decoding_view(r) == decoded_user(text@),
{
    match parse_document(text) {
        None => Err(PayloadError::Syntax),
        Some(doc) => {
            let id = read_member(&doc, "id");
            let name = read_member(&doc, "name");
            let email = read_member(&doc, "email");
            user_from_members(id, name, email)
        },
    }
}

/// Writes a user as JSON text.
pub fn encode_user(user: &User) -> (text: String)
    ensures
        text@ == user_json(user@),
{
    let mut out = String::new();
    out.append("{\"id\":");
    match user.id {
        Some(i) => {
            let digits = format_i32(i);
            out.append(digits.as_str());
        },
        None => {
            out.append("null");
        },
    }
    out.append(",\"name\":");
    let name = quote(user.name.as_str());
    out.append(name.as_str());
    out.append(",\"email\":");
    let email = quote(user.email.as_str());
    out.append(email.as_str());
    out.append("}");
    assert(out@ =~= user_json(user@));
    out
}

/// Writes a list of users as JSON text.
pub fn encode_users(users: &Vec<User>) -> (text: String)
    ensures
        text@ == users_json(user_views(users@)),
{
    let ghost views = user_views(users@);
    let mut out = String::new();
    out.append("[");
    let mut i: usize = 0;
    while i < users.len()
        invariant
            i <= users.len(),
            views == user_views(users@),
            out@ == "["@ + users_json_items(views.take(i as int)),
        decreases users.len() - i,
    {
        let ghost before = out@;
        if i > 0 {
            out.append(",");
        }
        let item = encode_user(&users[i]);
        out.append(item.as_str());
        proof {
            let next = views.take(i + 1);
            assert(next.drop_last() == views.take(i as int));
            assert(next.last() == users@[i as int]@);
            assert(out@ =~= "["@ + users_json_items(next));
        }
        i += 1;
    }
    out.append("]");
    proof {
        assert(views.take(users.len() as int) == views);
    }
    out
}

} // verus!
