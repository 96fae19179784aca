//! The shapes in which a host format presents its input and takes its output.

use vstd::prelude::*;

verus! {

/// One input or output token of the host format.
///
/// A floating-point number is held by its decimal text, the shortest that
/// reads back as the same number: this library does no floating-point
/// arithmetic, and of such a number it needs the text alone.
#[derive(Debug, PartialEq, Eq)]
pub enum Token {
    /// The absent value.
    Null,
    Bool(bool),
    /// A signed integer of up to 64 bits.
    I64(i64),
    /// An unsigned integer of up to 64 bits.
    U64(u64),
    /// A signed integer in the host's form of 128 bits.
    I128(i128),
    /// An unsigned integer in the host's form of 128 bits.
    U128(u128),
    /// A floating-point number, by its decimal text.
    F64(String),
    Str(String),
    /// An ordered sequence of tokens.
    Array(Vec<Token>),
    /// Key and value pairs, in the order of the input.
    Object(Vec<(String, Token)>),
}

/// The mathematical model of a [`Token`].
pub enum TokenView {
    Null,
    Bool(bool),
    I64(i64),
    U64(u64),
    I128(i128),
    U128(u128),
    F64(Seq<char>),
    Str(Seq<char>),
    Array(Seq<TokenView>),
    Object(Seq<(Seq<char>, TokenView)>),
}

impl TokenView {
    /// The integer that an integer token holds.
    pub open spec fn integer(self) -> Option<int> {
        match self {
            TokenView::I64(v) => Some(v as int),
            TokenView::U64(v) => Some(v as int),
            TokenView::I128(v) => Some(v as int),
            TokenView::U128(v) => Some(v as int),
            _ => None,
        }
    }

    /// Whether the token is an integer in the form of 128 bits.
    pub open spec fn is_wide(self) -> bool {
        self is I128 || self is U128
    }
}

/// The models of a run of tokens.
pub open spec fn tokens_view(items: Seq<Token>) -> Seq<TokenView> {
    Seq::new(items.len(), |i: int| items[i]@)
}

/// The models of a run of key and value pairs.
pub open spec fn entries_view(entries: Seq<(String, Token)>) -> Seq<(Seq<char>, TokenView)> {
    Seq::new(entries.len(), |i: int| (entries[i].0@, entries[i].1@))
}

/// The model of a token.
pub open spec fn token_view(t: Token) -> TokenView
    decreases t,
{
    match t {
        Token::Null => TokenView::Null,
        Token::Bool(b) => TokenView::Bool(b),
        Token::I64(v) => TokenView::I64(v),
        Token::U64(v) => TokenView::U64(v),
        Token::I128(v) => TokenView::I128(v),
        Token::U128(v) => TokenView::U128(v),
        Token::F64(s) => TokenView::F64(s@),
        Token::Str(s) => TokenView::Str(s@),
        Token::Array(items) => TokenView::Array(
            Seq::new(
                items@.len(),
                |i: int|
                    if 0 <= i < items@.len() {
                        token_view(items@[i])
                    } else {
                        TokenView::Null
                    },
            ),
        ),
        Token::Object(entries) => TokenView::Object(
            Seq::new(
                entries@.len(),
                |i: int|
                    if 0 <= i < entries@.len() {
                        (entries@[i].0@, token_view(entries@[i].1))
                    } else {
                        (Seq::empty(), TokenView::Null)
                    },
            ),
        ),
    }
}

impl View for Token {
    type V = TokenView;

    open spec fn view(&self) -> TokenView {
        token_view(*self)
    }
}

/// The model of an array is the models of its items, and that of an object
/// the models of its pairs.
pub proof fn lemma_token_view(t: Token)
    ensures
        t matches Token::Array(items) ==> t@ == TokenView::Array(tokens_view(items@)),
        t matches Token::Object(entries) ==> t@ == TokenView::Object(entries_view(entries@)),
{
    if t is Array {
        let items = t->Array_0;
        assert(t@->Array_0.len() == items@.len());
        assert(t@->Array_0 =~= tokens_view(items@));
    }
    if t is Object {
        let entries = t->Object_0;
        assert(t@->Object_0 =~= entries_view(entries@));
    }
}

impl Clone for Token {
    /// A copy of the token and of all that it holds.
    fn clone(&self) -> (copy: Token)
        ensures
            copy@ == self@,
        decreases self,
    {
        match self {
            Token::Null => Token::Null,
            Token::Bool(b) => Token::Bool(*b),
            Token::I64(v) => Token::I64(*v),
            Token::U64(v) => Token::U64(*v),
            Token::I128(v) => Token::I128(*v),
            Token::U128(v) => Token::U128(*v),
            Token::F64(s) => Token::F64(s.clone()),
            Token::Str(s) => Token::Str(s.clone()),
            Token::Array(items) => {
                let mut out: Vec<Token> = Vec::new();
                let mut i: usize = 0;
                while i < items.len()
                    invariant
                        self is Array,
                        self->Array_0 == items,
                        i <= items.len(),
                        out@.len() == i,
                        forall|j: int| 0 <= j < i ==> out@[j]@ == items@[j]@,
                    decreases items.len() - i,
                {
                    let item = items[i].clone();
                    out.push(item);
                    i += 1;
                }
                let copy = Token::Array(out);
                assert(copy@->Array_0 =~= self@->Array_0);
                copy
            },
            Token::Object(entries) => {
                let mut out: Vec<(String, Token)> = Vec::new();
                let mut i: usize = 0;
                while i < entries.len()
                    invariant
                        self is Object,
                        self->Object_0 == entries,
                        i <= entries.len(),
                        out@.len() == i,
                        forall|j: int|
                            0 <= j < i ==> out@[j].0@ == entries@[j].0@ && out@[j].1@
                                == entries@[j].1@,
                    decreases entries.len() - i,
                {
                    let key = entries[i].0.clone();
                    let value = entries[i].1.clone();
                    out.push((key, value));
                    i += 1;
                }
                let copy = Token::Object(out);
                assert(copy@->Object_0 =~= self@->Object_0);
                copy
            },
        }
    }
}

} // verus!
