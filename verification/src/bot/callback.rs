//! The data carried by the buttons of a message: an action, a colon, and
//! what the action applies to.

use crate::text::{
    chars_of,
    decimal,
    digit_value,
    find,
    find_char,
    lemma_decimal_reads_back,
    lemma_find_is_first,
    lemma_parse_decimal,
    lemma_rfind_is_last,
    parse_u32,
    parsed_u32,
    push_decimal,
    rfind,
    rfind_char,
};
use vstd::prelude::*;

verus! {

/// What a button asks for.
#[derive(Debug, PartialEq)]
pub enum Callback {
    /// Show the first page of a directory.
    ChangeDir(String),
    /// Show a page of a directory.
    Page(String, u32),
    /// Show the direct address of a file.
    GetLink(String),
    /// Hand an address to the backend for download.
    RemoteDownload(String),
}

/// The mathematical value of a [`Callback`].
pub enum CallbackView {
    ChangeDir(Seq<char>),
    Page(Seq<char>, u32),
    GetLink(Seq<char>),
    RemoteDownload(Seq<char>),
}

impl View for Callback {
    type V = CallbackView;

    open spec fn view(&self) -> CallbackView {
        match self {
            Callback::ChangeDir(path) => CallbackView::ChangeDir(path@),
            Callback::Page(path, page) => CallbackView::Page(path@, *page),
            Callback::GetLink(path) => CallbackView::GetLink(path@),
            Callback::RemoteDownload(url) => CallbackView::RemoteDownload(url@),
        }
    }
}

/// The value of a callback that may be none.
pub open spec fn callback_view(o: Option<Callback>) -> Option<CallbackView> {
    match o {
        Some(cb) => Some(cb@),
        None => None,
    }
}

/// The data of a button that asks for `cb`.
pub open spec fn encoded(cb: CallbackView) -> Seq<char> {
    match cb {
        CallbackView::ChangeDir(path) => seq!['c', 'd', ':'] + path,
        CallbackView::Page(path, page) => seq!['p', 'g', ':'] + path + seq![':'] + decimal(
            page as nat,
        ),
        CallbackView::GetLink(path) => seq!['g', 'l', ':'] + path,
        CallbackView::RemoteDownload(url) => seq!['r', 'd', ':'] + url,
    }
}

/// What the payload of a page button asks for: the path before the last
/// colon, and the page written after it.
pub open spec fn decoded_page(payload: Seq<char>) -> Option<CallbackView> {
    match rfind(payload, ':') {
        Some(k) => match parsed_u32(payload.subrange(k + 1, payload.len() as int)) {
            Some(page) => Some(CallbackView::Page(payload.subrange(0, k), page)),
            None => None,
        },
        None => None,
    }
}

/// What a button's data asks for. The action is what stands before the
/// first colon; data without a colon, or with an action that is not
/// known, asks for nothing.
pub open spec fn decoded(data: Seq<char>) -> Option<CallbackView> {
    match find(data, ':') {
        Some(i) => {
            let action = data.subrange(0, i);
            let payload = data.subrange(i + 1, data.len() as int);
            if action == seq!['c', 'd'] {
                Some(CallbackView::ChangeDir(payload))
            } else if action == seq!['p', 'g'] {
                decoded_page(payload)
            } else if action == seq!['g', 'l'] {
                Some(CallbackView::GetLink(payload))
            } else if action == seq!['r', 'd'] {
                Some(CallbackView::RemoteDownload(payload))
            } else {
                None
            }
        },
        None => None,
    }
}

/// What a button was made to ask for is what its data is read as.
pub proof fn lemma_decode_encode(cb: CallbackView)
    ensures
        decoded(encoded(cb)) == Some(cb),
{
    let data = encoded(cb);
    lemma_find_is_first(data, ':', 2, 0);
    let payload = data.subrange(3, data.len() as int);
    match cb {
        CallbackView::ChangeDir(path) => {
            assert(data.subrange(0, 2) =~= seq!['c', 'd']);
            assert(payload =~= path);
        },
        CallbackView::GetLink(path) => {
            assert(data.subrange(0, 2) =~= seq!['g', 'l']);
            assert(payload =~= path);
        },
        CallbackView::RemoteDownload(url) => {
            assert(data.subrange(0, 2) =~= seq!['r', 'd']);
            assert(payload =~= url);
        },
        CallbackView::Page(path, page) => {
            assert(data.subrange(0, 2) =~= seq!['p', 'g']);
            let numeral = decimal(page as nat);
            lemma_decimal_reads_back(page as nat);
            let k = path.len() as int;
            assert(payload =~= path + seq![':'] + numeral);
            assert forall|j: int| k < j < payload.len() implies payload[j] != ':' by {
                assert(payload[j] == numeral[j - k - 1]);
                assert(digit_value(numeral[j - k - 1]) is Some);
            }
            lemma_rfind_is_last(payload, ':', k, payload.len() as int);
            assert(payload.subrange(k + 1, payload.len() as int) =~= numeral);
            assert(payload.subrange(0, k) =~= path);
            lemma_parse_decimal(page);
        },
    }
}

/// The data of a button that asks for `cb`.
pub fn encode(cb: &Callback) -> (r: String)
    ensures
        r@ == encoded(cb@),
{
    proof {
        reveal_strlit("cd:");
        reveal_strlit("pg:");
        reveal_strlit("gl:");
        reveal_strlit("rd:");
        reveal_strlit(":");
    }
    match cb {
        Callback::ChangeDir(path) => {
            let mut out = String::from_str("cd:");
            out.append(path.as_str());
            out
        },
        Callback::Page(path, page) => {
            let mut out = String::from_str("pg:");
            out.append(path.as_str());
            out.append(":");
            push_decimal(&mut out, *page as u64);
            out
        },
        Callback::GetLink(path) => {
            let mut out = String::from_str("gl:");
            out.append(path.as_str());
            out
        },
        Callback::RemoteDownload(url) => {
            let mut out = String::from_str("rd:");
            out.append(url.as_str());
            out
        },
    }
}

/// Whether the first `n` characters are exactly `a` and `b`.
fn is_action(chars: &Vec<char>, n: usize, a: char, b: char) -> (r: bool)
    requires
        n <= chars.len(),
    ensures
        r == (chars@.subrange(0, n as int) == seq![a, b]),
{
    if n == 2 && chars[0] == a && chars[1] == b {
        assert(chars@.subrange(0, n as int) =~= seq![a, b]);
        true
    } else {
        assert(chars@.subrange(0, n as int) != seq![a, b]) by {
            if chars@.subrange(0, n as int) == seq![a, b] {
                assert(seq![a, b].len() == 2);
                assert(chars@.subrange(0, n as int)[0] == a);
                assert(chars@.subrange(0, n as int)[1] == b);
            }
        }
        false
    }
}

/// Whether a button's data names an action at all: whether it holds a
/// colon. Data that names none, such as that of a button that does
/// nothing, calls for no answer.
pub fn has_action(data: &str) -> (r: bool)
    ensures
        r == (find(data@, ':') is Some),
{
    let chars = chars_of(data);
    find_char(&chars, ':').is_some()
}

/// What the payload of a page button asks for.
pub fn parse_page(payload: &str) -> (r: Option<Callback>)
    ensures
        callback_view(r) == decoded_page(payload@),
{
    let chars = chars_of(payload);
    match rfind_char(&chars, ':') {
        Some(k) => match parse_u32(&chars, k + 1) {
            Some(page) => Some(
                Callback::Page(String::from_str(payload.substring_char(0, k)), page),
            ),
            None => None,
        },
        None => None,
    }
}

/// What a button's data asks for.
pub fn parse_callback(data: &str) -> (r: Option<Callback>)
    ensures
        callback_view(r) == decoded(data@),
{
    let chars = chars_of(data);
    match find_char(&chars, ':') {
        Some(i) => {
            let payload = data.substring_char(i + 1, chars.len());
            if is_action(&chars, i, 'c', 'd') {
                Some(Callback::ChangeDir(String::from_str(payload)))
            } else if is_action(&chars, i, 'p', 'g') {
                parse_page(payload)
            } else if is_action(&chars, i, 'g', 'l') {
                Some(Callback::GetLink(String::from_str(payload)))
            } else if is_action(&chars, i, 'r', 'd') {
                Some(Callback::RemoteDownload(String::from_str(payload)))
            } else {
                None
            }
        },
        None => None,
    }
}

} // verus!
