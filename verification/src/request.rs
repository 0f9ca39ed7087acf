//! What a raw request asks for: its route, the id in its path, its body.

use crate::decimal::{
    is_digit, numeral_i32, numeral_text, numeral_text_is_one_word, numeral_text_is_read_back,
    parse_i32,
};
use crate::text::{
    final_piece, first_token, is_space, last_piece, last_piece_start_at_end,
    last_piece_start_skips, leading_token, matches_at, next_index, next_index_at,
    next_index_from, next_space_at, nth_piece, piece, piece_from, starts_with,
};
use vstd::prelude::*;

verus! {

/// The operation that a request is routed to.
#[derive(Clone, Copy, Debug, PartialEq, Eq, Structural)]
pub enum Route {
    Create,
    Read,
    ReadAll,
    Update,
    Delete,
    NotFound,
}

/// The route of the request text `r`: the first, in this order, of the five
/// method-and-path prefixes that `r` begins with.
pub open spec fn route_of(r: Seq<char>) -> Route {
    if "POST /users"@.is_prefix_of(r) {
        Route::Create
    } else if "GET /users/"@.is_prefix_of(r) {
        Route::Read
    } else if "GET /users"@.is_prefix_of(r) {
        Route::ReadAll
    } else if "PUT /users/"@.is_prefix_of(r) {
        Route::Update
    } else if "DELETE /users"@.is_prefix_of(r) {
        Route::Delete
    } else {
        Route::NotFound
    }
}

/// The text of the id in the request text `r`: of the pieces that `/` cuts
/// `r` into, the third, up to its first white space.
pub open spec fn id_text(r: Seq<char>) -> Seq<char> {
    first_token(piece(r, '/', 2))
}

/// The id that the request text `r` names, where it names one.
pub open spec fn id_of(r: Seq<char>) -> Option<i32> {
    numeral_i32(id_text(r))
}

/// The body of the request text `r`: what follows the last blank line.
pub open spec fn body_of(r: Seq<char>) -> Seq<char> {
    last_piece(r, "\r\n\r\n"@)
}

/// Routes a request by its method and path.
pub fn route(request: &str) -> (route: Route)
    ensures
        route == route_of(request@),
{
    if starts_with(request, "POST /users") {
        Route::Create
    } else if starts_with(request, "GET /users/") {
        Route::Read
    } else if starts_with(request, "GET /users") {
        Route::ReadAll
    } else if starts_with(request, "PUT /users/") {
        Route::Update
    } else if starts_with(request, "DELETE /users") {
        Route::Delete
    } else {
        Route::NotFound
    }
}

/// The text of the id in the path of a request; empty where the path holds
/// none.
pub fn get_id(request: &str) -> (id: &str)
    ensures
        id@ == id_text(request@),
{
    leading_token(nth_piece(request, '/', 2))
}

/// The id in the path of a request; `None` where the path holds no numeral
/// or one that does not fit an `i32`.
pub fn request_id(request: &str) -> (id: Option<i32>)
    ensures
        id == id_of(request@),
{
    parse_i32(get_id(request))
}

/// The body of a request: what follows the last blank line, and the whole
/// request where it has no blank line.
pub fn request_body(request: &str) -> (body: &str)
    ensures
        body@ == body_of(request@),
{
    final_piece(request, "\r\n\r\n")
}

/// The id in a path. Where `head` holds two `/`, one of them at its end,
/// `word` is not empty and holds neither `/` nor white space, and `tail` is
/// empty or begins with white space, the text of the id in
/// `head + word + tail` is `word`.
pub proof fn id_text_of_path(head: Seq<char>, word: Seq<char>, tail: Seq<char>, first: int)
    requires
        0 <= first < head.len() - 1,
        head[first] == '/',
        head[head.len() - 1] == '/',
        forall|j: int| 0 <= j < head.len() - 1 && j != first ==> #[trigger] head[j] != '/',
        word.len() > 0,
        forall|i: int| 0 <= i < word.len() ==> #[trigger] word[i] != '/' && !is_space(word[i]),
        tail.len() == 0 || is_space(tail[0]),
    ensures
        id_text(head + word + tail) == word,
{
    let r = head + word + tail;
    let h = head.len() as int;
    let w = word.len() as int;
    assert forall|j: int| 0 <= j < first implies #[trigger] r[j] != '/' by {
        assert(r[j] == head[j]);
    }
    assert(r[first] == head[first]);
    next_index_at(r, '/', 0, first);
    assert forall|j: int| first + 1 <= j < h - 1 implies #[trigger] r[j] != '/' by {
        assert(r[j] == head[j]);
    }
    assert(r[h - 1] == head[h - 1]);
    next_index_at(r, '/', first + 1, h - 1);
    assert forall|j: int| h <= j < h + w implies #[trigger] r[j] != '/' by {
        assert(r[j] == word[j - h]);
    }
    next_index_from(r, '/', h, h + w);
    let end = next_index(r, '/', h);
    assert(piece_from(r, '/', 0, h) == r.subrange(h, end));
    assert(piece_from(r, '/', 1, first + 1) == r.subrange(h, end));
    assert(piece(r, '/', 2) == r.subrange(h, end));
    let p = r.subrange(h, end);
    assert forall|j: int| 0 <= j < w implies !is_space(#[trigger] p[j]) by {
        assert(p[j] == word[j]);
    }
    if w < p.len() {
        assert(p[w] == tail[0]);
    }
    next_space_at(p, false, 0, 0);
    next_space_at(p, true, 0, w);
    assert(p.subrange(0, w) =~= word);
}

/// A numeral makes a word of a path: it holds neither `/` nor white space.
proof fn numeral_is_a_path_word(id: i32)
    ensures
        numeral_text(id as int).len() > 0,
        forall|i: int|
            0 <= i < numeral_text(id as int).len() ==> #[trigger] numeral_text(id as int)[i] != '/'
                && !is_space(numeral_text(id as int)[i]),
{
    numeral_text_is_one_word(id as int);
    let s = numeral_text(id as int);
    assert forall|i: int| 0 <= i < s.len() implies #[trigger] s[i] != '/' && !is_space(s[i]) by {
        assert(is_digit(s[i]) || s[i] == '-');
    }
}

/// A request that begins with `GET /users/`, goes on with the numeral of
/// `id` and then ends or goes on with white space is routed to the reading
/// of one user and names the id `id`.
pub proof fn read_request_names_its_id(id: i32, tail: Seq<char>)
    requires
        tail.len() == 0 || is_space(tail[0]),
    ensures
        route_of("GET /users/"@ + numeral_text(id as int) + tail) == Route::Read,
        id_of("GET /users/"@ + numeral_text(id as int) + tail) == Some(id),
{
    reveal_strlit("GET /users/");
    reveal_strlit("POST /users");
    let head = "GET /users/"@;
    let r = head + numeral_text(id as int) + tail;
    numeral_is_a_path_word(id);
    numeral_text_is_read_back(id);
    id_text_of_path(head, numeral_text(id as int), tail, 4);
    assert(r.subrange(0, 11) =~= head);
    assert(r[0] == 'G');
    if "POST /users"@.is_prefix_of(r) {
        assert(r.subrange(0, 11)[0] == 'P');
    }
}

/// A request that begins with `PUT /users/`, goes on with the numeral of
/// `id` and then ends or goes on with white space is routed to the update
/// and names the id `id`.
pub proof fn update_request_names_its_id(id: i32, tail: Seq<char>)
    requires
        tail.len() == 0 || is_space(tail[0]),
    ensures
        route_of("PUT /users/"@ + numeral_text(id as int) + tail) == Route::Update,
        id_of("PUT /users/"@ + numeral_text(id as int) + tail) == Some(id),
{
    reveal_strlit("PUT /users/");
    reveal_strlit("POST /users");
    reveal_strlit("GET /users/");
    reveal_strlit("GET /users");
    let head = "PUT /users/"@;
    let r = head + numeral_text(id as int) + tail;
    numeral_is_a_path_word(id);
    numeral_text_is_read_back(id);
    id_text_of_path(head, numeral_text(id as int), tail, 4);
    assert(r.subrange(0, 11) =~= head);
    assert(r[0] == 'P' && r[1] == 'U');
    if "POST /users"@.is_prefix_of(r) {
        assert(r.subrange(0, 11)[1] == 'O');
    }
    if "GET /users/"@.is_prefix_of(r) {
        assert(r.subrange(0, 11)[0] == 'G');
    }
    if "GET /users"@.is_prefix_of(r) {
        assert(r.subrange(0, 10)[0] == 'G');
    }
}

/// A request that begins with `DELETE /users/`, goes on with the numeral of
/// `id` and then ends or goes on with white space is routed to the deletion
/// and names the id `id`.
pub proof fn delete_request_names_its_id(id: i32, tail: Seq<char>)
    requires
        tail.len() == 0 || is_space(tail[0]),
    ensures
        route_of("DELETE /users/"@ + numeral_text(id as int) + tail) == Route::Delete,
        id_of("DELETE /users/"@ + numeral_text(id as int) + tail) == Some(id),
{
    reveal_strlit("DELETE /users/");
    reveal_strlit("DELETE /users");
    reveal_strlit("PUT /users/");
    reveal_strlit("POST /users");
    reveal_strlit("GET /users/");
    reveal_strlit("GET /users");
    let head = "DELETE /users/"@;
    let r = head + numeral_text(id as int) + tail;
    numeral_is_a_path_word(id);
    numeral_text_is_read_back(id);
    id_text_of_path(head, numeral_text(id as int), tail, 7);
    assert(r.subrange(0, 13) =~= "DELETE /users"@);
    assert(r[0] == 'D');
    if "POST /users"@.is_prefix_of(r) {
        assert(r.subrange(0, 11)[0] == 'P');
    }
    if "GET /users/"@.is_prefix_of(r) {
        assert(r.subrange(0, 11)[0] == 'G');
    }
    if "GET /users"@.is_prefix_of(r) {
        assert(r.subrange(0, 10)[0] == 'G');
    }
    if "PUT /users/"@.is_prefix_of(r) {
        assert(r.subrange(0, 11)[0] == 'P');
    }
}

/// Whether a blank line, that is two line ends, stands in `s` at `i`.
pub open spec fn blank_line_at(s: Seq<char>, i: int) -> bool {
    &&& 0 <= i
    &&& i + 4 <= s.len()
    &&& s[i] == '\r'
    &&& s[i + 1] == '\n'
    &&& s[i + 2] == '\r'
    &&& s[i + 3] == '\n'
}

/// The separator of head and body stands where a blank line stands.
pub proof fn separator_is_blank_line(s: Seq<char>, i: int)
    ensures
        matches_at(s, "\r\n\r\n"@, i) == blank_line_at(s, i),
{
    reveal_strlit("\r\n\r\n");
    let sep = "\r\n\r\n"@;
    if 0 <= i && i + 4 <= s.len() {
        let m = s.subrange(i, i + 4);
        if blank_line_at(s, i) {
            assert(m =~= sep);
        }
        if m == sep {
            assert(m[0] == s[i] && m[1] == s[i + 1] && m[2] == s[i + 2] && m[3] == s[i + 3]);
        }
    }
}

/// The body behind the head. Where neither `head` nor `body` holds a blank
/// line and `head` does not end with a line end, the body of the request
/// `head`, blank line, `body` is `body`.
pub proof fn body_follows_the_head(head: Seq<char>, body: Seq<char>)
    requires
        forall|i: int| !blank_line_at(head, i),
        forall|i: int| !blank_line_at(body, i),
        !(head.len() >= 2 && head[head.len() - 2] == '\r' && head[head.len() - 1] == '\n'),
    ensures
        body_of(head + "\r\n\r\n"@ + body) == body,
{
    let sep = "\r\n\r\n"@;
    let r = head + sep + body;
    let h = head.len() as int;
    assert(sep.len() == 4 && sep[0] == '\r' && sep[1] == '\n' && sep[2] == '\r' && sep[3]
        == '\n') by {
        reveal_strlit("\r\n\r\n");
    }
    assert(r.len() == h + 4 + body.len());
    assert forall|i: int| 0 <= i < h implies #[trigger] r[i] == head[i] by {}
    assert(r[h] == '\r' && r[h + 1] == '\n' && r[h + 2] == '\r' && r[h + 3] == '\n');
    assert forall|i: int| h + 4 <= i < r.len() implies #[trigger] r[i] == body[i - h - 4] by {}
    assert forall|i: int| 0 <= i < h implies !matches_at(r, sep, i) by {
        separator_is_blank_line(r, i);
        if blank_line_at(r, i) {
            if i + 4 <= h {
                assert(blank_line_at(head, i));
            } else if i == h - 2 {
                assert(head[h - 2] == '\r' && head[h - 1] == '\n');
            }
        }
    }
    assert(matches_at(r, sep, h)) by {
        separator_is_blank_line(r, h);
    }
    last_piece_start_skips(r, sep, 0, 0, h);
    assert forall|i: int| h + 4 <= i implies !matches_at(r, sep, i) by {
        separator_is_blank_line(r, i);
        if blank_line_at(r, i) {
            assert(blank_line_at(body, i - h - 4));
        }
    }
    last_piece_start_at_end(r, sep, h + 4, h + 4);
    assert(r.subrange(h + 4, r.len() as int) =~= body);
}

} // verus!
