//! The written form of a declaration, and its reading.
//!
//! ```text
//! Name { field: Type, .. }
//! impl MsgName {
//!     @priority(Level) fn operation(&mut self, argument: Type, ..) -> Type { .. }
//!     @priority(Level) async fn operation(&mut self) { .. }
//! }
//! ```
//!
//! A type is a run of tokens that ends at a comma outside all angle brackets;
//! a result type ends where the body begins. A signature has no generics, no
//! attributes and no `where` clause, and the state is written without a
//! lifetime. Reading takes the tokens apart; whether what they say is in order
//! is decided on the declaration itself.

use crate::declaration::{
    ActorDef, ActorDefView, DeclarationError, FieldDef, FieldView, MethodDef, MethodView,
    ParamDef, ParamView,
};
use crate::schema::{define_actor, schema_of, ActorSchema};
use crate::text::copy_text;
use crate::token::{
    find_braced, find_run_end, first_braced, is_punct, is_word, join, join_text, kw_async, kw_fn,
    kw_impl, kw_mut, kw_self, punct_is, run_end, word_async, word_fn, word_impl, word_is,
    word_mut, word_self, Token, TokenKind,
};
use vstd::prelude::*;

verus! {

/// The items `acc` followed by those of `rest`, where there are any.
pub open spec fn prepend<T>(acc: Seq<T>, rest: Option<Seq<T>>) -> Option<Seq<T>> {
    match rest {
        Some(r) => Some(acc + r),
        None => None,
    }
}

/// The parameter that the tokens from `a` up to `b` spell: the state, as
/// `self`, `mut self`, `&self` or `&mut self`, or a name, a colon and a type.
pub open spec fn spec_param(p: Seq<Token>, a: int, b: int) -> Option<ParamView> {
    if !(0 <= a < b <= p.len()) {
        None
    } else if b - a == 1 && is_word(p[a], kw_self()) {
        Some(ParamView::Receiver { reference: false, mutable: false })
    } else if b - a == 2 && is_word(p[a], kw_mut()) && is_word(p[a + 1], kw_self()) {
        Some(ParamView::Receiver { reference: false, mutable: true })
    } else if b - a == 2 && is_punct(p[a], '&' as u8) && is_word(p[a + 1], kw_self()) {
        Some(ParamView::Receiver { reference: true, mutable: false })
    } else if b - a == 3 && is_punct(p[a], '&' as u8) && is_word(p[a + 1], kw_mut()) && is_word(
        p[a + 2],
        kw_self(),
    ) {
        Some(ParamView::Receiver { reference: true, mutable: true })
    } else if b - a >= 3 && p[a].kind == TokenKind::Ident && is_punct(p[a + 1], ':' as u8) {
        Some(ParamView::Typed { name: p[a].text@, ty: join_text(p.subrange(a + 2, b)) })
    } else {
        None
    }
}

/// The parameters that the tokens from `a` on spell: parameters with a comma
/// after each but, at will, the last.
pub open spec fn spec_params(p: Seq<Token>, a: int) -> Option<Seq<ParamView>>
    decreases p.len() - a,
{
    if a < 0 {
        None
    } else if a >= p.len() {
        Some(Seq::empty())
    } else {
        let b = run_end(p, a, 0);
        match spec_param(p, a, b) {
            None => None,
            Some(x) => if b >= p.len() {
                Some(seq![x])
            } else if b > a {
                prepend(seq![x], spec_params(p, b + 1))
            } else {
                None
            },
        }
    }
}

/// The field that the tokens from `a` up to `b` spell: a name, a colon and a type.
pub open spec fn spec_field(s: Seq<Token>, a: int, b: int) -> Option<FieldView> {
    if 0 <= a && a + 3 <= b <= s.len() && s[a].kind == TokenKind::Ident && is_punct(
        s[a + 1],
        ':' as u8,
    ) {
        Some(FieldView { name: s[a].text@, ty: join_text(s.subrange(a + 2, b)) })
    } else {
        None
    }
}

/// The fields that the tokens from `a` on spell: fields with a comma after
/// each but, at will, the last.
pub open spec fn spec_fields(s: Seq<Token>, a: int) -> Option<Seq<FieldView>>
    decreases s.len() - a,
{
    if a < 0 {
        None
    } else if a >= s.len() {
        Some(Seq::empty())
    } else {
        let b = run_end(s, a, 0);
        match spec_field(s, a, b) {
            None => None,
            Some(f) => if b >= s.len() {
                Some(seq![f])
            } else if b > a {
                prepend(seq![f], spec_fields(s, b + 1))
            } else {
                None
            },
        }
    }
}

/// Whether the tokens from `a` on begin with a priority tag: `@`, a word, and
/// one word in round brackets.
pub open spec fn tagged(s: Seq<Token>, a: int) -> bool {
    &&& 0 <= a
    &&& a + 3 <= s.len()
    &&& is_punct(s[a], '@' as u8)
    &&& s[a + 1].kind == TokenKind::Ident
    &&& s[a + 2].kind == TokenKind::Parenthesized
    &&& s[a + 2].inner@.len() == 1
    &&& s[a + 2].inner@[0].kind == TokenKind::Ident
}

/// Whether the tokens from `k` on begin with the head of a function: `fn`, a
/// name, and the parameters in round brackets.
pub open spec fn headed(s: Seq<Token>, k: int) -> bool {
    &&& k + 3 <= s.len()
    &&& is_word(s[k], kw_fn())
    &&& s[k + 1].kind == TokenKind::Ident
    &&& s[k + 2].kind == TokenKind::Parenthesized
}

/// Whether the tokens from `j` on begin with an arrow.
pub open spec fn arrow_at(s: Seq<Token>, j: int) -> bool {
    j + 2 <= s.len() && is_punct(s[j], '-' as u8) && is_punct(s[j + 1], '>' as u8)
}

/// The operation that the tokens from `a` on spell, and the position after
/// it: a priority tag; `fn`, or `async fn`; the name; the parameters in round
/// brackets; an arrow and a result type, or neither; and the body in curly
/// brackets.
pub open spec fn spec_method(s: Seq<Token>, a: int) -> Option<(MethodView, int)> {
    if !tagged(s, a) {
        None
    } else {
        let is_async = a + 3 < s.len() && is_word(s[a + 3], kw_async());
        let k = if is_async {
            a + 4
        } else {
            a + 3
        };
        if !headed(s, k) {
            None
        } else {
            match spec_params(s[k + 2].inner@, 0) {
                None => None,
                Some(inputs) => {
                    let j = k + 3;
                    let arrow = arrow_at(s, j);
                    let body_at = if arrow {
                        first_braced(s, j + 2)
                    } else {
                        j
                    };
                    if body_at < s.len() && s[body_at].kind == TokenKind::Braced && (arrow
                        ==> body_at > j + 2) {
                        Some(
                            (
                                MethodView {
                                    priority: s[a + 2].inner@[0].text@,
                                    name: s[k + 1].text@,
                                    is_async,
                                    inputs,
                                    output: if arrow {
                                        Some(join_text(s.subrange(j + 2, body_at)))
                                    } else {
                                        None
                                    },
                                    body: s[body_at].text@,
                                },
                                body_at + 1,
                            ),
                        )
                    } else {
                        None
                    }
                },
            }
        }
    }
}

/// The operations that the tokens from `a` on spell, one after the other.
pub open spec fn spec_methods(s: Seq<Token>, a: int) -> Option<Seq<MethodView>>
    decreases s.len() - a,
{
    if a < 0 {
        None
    } else if a >= s.len() {
        Some(Seq::empty())
    } else {
        match spec_method(s, a) {
            None => None,
            Some((m, next)) => if a < next <= s.len() {
                prepend(seq![m], spec_methods(s, next))
            } else {
                None
            },
        }
    }
}

/// The declaration that `s` spells: the name of the state, its fields in
/// curly brackets, `impl`, the name of the message set, and the operations in
/// curly brackets.
pub open spec fn spec_actor(s: Seq<Token>) -> Option<ActorDefView> {
    if s.len() == 5 && s[0].kind == TokenKind::Ident && s[1].kind == TokenKind::Braced && is_word(
        s[2],
        kw_impl(),
    ) && s[3].kind == TokenKind::Ident && s[4].kind == TokenKind::Braced {
        match (spec_fields(s[1].inner@, 0), spec_methods(s[4].inner@, 0)) {
            (Some(fields), Some(methods)) => Some(
                ActorDefView { actor_name: s[0].text@, fields, msg_name: s[3].text@, methods },
            ),
            _ => None,
        }
    } else {
        None
    }
}

/// The parameters of an operation.
fn parse_param(p: &[Token], a: usize, b: usize) -> (r: Option<ParamDef>)
    requires
        a <= b <= p@.len(),
    ensures
        match r {
            Some(x) => spec_param(p@, a as int, b as int) == Some(x@),
            None => spec_param(p@, a as int, b as int) is None,
        },
{
    let n: usize = b - a;
    if n == 0 {
        None
    } else if n == 1 && word_is(&p[a], word_self().as_slice()) {
        Some(ParamDef::Receiver { reference: false, mutable: false })
    } else if n == 2 && word_is(&p[a], word_mut().as_slice()) && word_is(
        &p[a + 1],
        word_self().as_slice(),
    ) {
        Some(ParamDef::Receiver { reference: false, mutable: true })
    } else if n == 2 && punct_is(&p[a], '&' as u8) && word_is(&p[a + 1], word_self().as_slice()) {
        Some(ParamDef::Receiver { reference: true, mutable: false })
    } else if n == 3 && punct_is(&p[a], '&' as u8) && word_is(&p[a + 1], word_mut().as_slice())
        && word_is(&p[a + 2], word_self().as_slice()) {
        Some(ParamDef::Receiver { reference: true, mutable: true })
    } else if n >= 3 && p[a].kind == TokenKind::Ident && punct_is(&p[a + 1], ':' as u8) {
        Some(ParamDef::Typed { name: copy_text(p[a].text.as_slice()), ty: join(p, a + 2, b) })
    } else {
        None
    }
}

/// The parameters that `p` spells.
fn parse_params(p: &[Token]) -> (r: Option<Vec<ParamDef>>)
    ensures
        match r {
            Some(v) => spec_params(p@, 0) == Some(v@.map_values(|x: ParamDef| x@)),
            None => spec_params(p@, 0) is None,
        },
{
    let n: usize = p.len();
    let mut acc: Vec<ParamDef> = Vec::new();
    let mut a: usize = 0;
    while a < n
        invariant
            n == p@.len(),
            a <= n,
            spec_params(p@, 0) == prepend(
                acc@.map_values(|x: ParamDef| x@),
                spec_params(p@, a as int),
            ),
        decreases n - a,
    {
        let b = find_run_end(p, a);
        match parse_param(p, a, b) {
            None => {
                return None;
            },
            Some(x) => {
                let ghost before = acc@.map_values(|x: ParamDef| x@);
                let ghost item = x@;
                acc.push(x);
                let next: usize = if b < n {
                    b + 1
                } else {
                    n
                };
                proof {
                    assert(acc@.map_values(|x: ParamDef| x@) =~= before.push(item));
                    if b >= n {
                        assert(spec_params(p@, next as int) == Some(Seq::<ParamView>::empty()));
                        assert(seq![item] + Seq::<ParamView>::empty() =~= seq![item]);
                    }
                    match spec_params(p@, next as int) {
                        Some(rest) => {
                            assert(before + (seq![item] + rest) =~= before.push(item) + rest);
                        },
                        None => {},
                    }
                }
                a = next;
            },
        }
    }
    proof {
        assert(acc@.map_values(|x: ParamDef| x@) + Seq::<ParamView>::empty()
            =~= acc@.map_values(|x: ParamDef| x@));
    }
    Some(acc)
}

impl FieldDef {
    /// Reads the field that the tokens from `a` up to `b` spell.
    pub fn parse(tokens: &[Token], a: usize, b: usize) -> (r: Option<FieldDef>)
        requires
            a <= b <= tokens@.len(),
        ensures
            match r {
                Some(f) => spec_field(tokens@, a as int, b as int) == Some(f@),
                None => spec_field(tokens@, a as int, b as int) is None,
            },
    {
        if b - a >= 3 && tokens[a].kind == TokenKind::Ident && punct_is(&tokens[a + 1], ':' as u8) {
            Some(
                FieldDef { name: copy_text(tokens[a].text.as_slice()), ty: join(tokens, a + 2, b) },
            )
        } else {
            None
        }
    }

    /// Reads the fields that `tokens` spell.
    pub fn parse_all(tokens: &[Token]) -> (r: Option<Vec<FieldDef>>)
        ensures
            match r {
                Some(v) => spec_fields(tokens@, 0) == Some(v@.map_values(|f: FieldDef| f@)),
                None => spec_fields(tokens@, 0) is None,
            },
    {
        let n: usize = tokens.len();
        let mut acc: Vec<FieldDef> = Vec::new();
        let mut a: usize = 0;
        while a < n
            invariant
                n == tokens@.len(),
                a <= n,
                spec_fields(tokens@, 0) == prepend(
                    acc@.map_values(|f: FieldDef| f@),
                    spec_fields(tokens@, a as int),
                ),
            decreases n - a,
        {
            let b = find_run_end(tokens, a);
            match FieldDef::parse(tokens, a, b) {
                None => {
                    return None;
                },
                Some(f) => {
                    let ghost before = acc@.map_values(|f: FieldDef| f@);
                    let ghost item = f@;
                    acc.push(f);
                    let next: usize = if b < n {
                        b + 1
                    } else {
                        n
                    };
                    proof {
                        assert(acc@.map_values(|f: FieldDef| f@) =~= before.push(item));
                        if b >= n {
                            assert(spec_fields(tokens@, next as int) == Some(
                                Seq::<FieldView>::empty(),
                            ));
                            assert(seq![item] + Seq::<FieldView>::empty() =~= seq![item]);
                        }
                        match spec_fields(tokens@, next as int) {
                            Some(rest) => {
                                assert(before + (seq![item] + rest) =~= before.push(item) + rest);
                            },
                            None => {},
                        }
                    }
                    a = next;
                },
            }
        }
        proof {
            assert(acc@.map_values(|f: FieldDef| f@) + Seq::<FieldView>::empty()
                =~= acc@.map_values(|f: FieldDef| f@));
        }
        Some(acc)
    }
}

impl MethodDef {
    /// Reads the operation that the tokens from `a` on spell, and gives the
    /// position after it.
    pub fn parse(tokens: &[Token], a: usize) -> (r: Option<(MethodDef, usize)>)
        requires
            a <= tokens@.len(),
        ensures
            match r {
                Some((m, next)) => spec_method(tokens@, a as int) == Some((m@, next as int)) && a
                    < next <= tokens@.len(),
                None => spec_method(tokens@, a as int) is None,
            },
    {
        let n: usize = tokens.len();
        if n - a < 3 {
            return None;
        }
        if !(punct_is(&tokens[a], '@' as u8) && tokens[a + 1].kind == TokenKind::Ident && tokens[a
            + 2].kind == TokenKind::Parenthesized && tokens[a + 2].inner.len() == 1 && tokens[a
            + 2].inner[0].kind == TokenKind::Ident) {
            return None;
        }
        let is_async = a + 3 < n && word_is(&tokens[a + 3], word_async().as_slice());
        let k: usize = if is_async {
            a + 4
        } else {
            a + 3
        };
        if n - k < 3 {
            return None;
        }
        if !(word_is(&tokens[k], word_fn().as_slice()) && tokens[k + 1].kind == TokenKind::Ident
            && tokens[k + 2].kind == TokenKind::Parenthesized) {
            return None;
        }
        let inputs = match parse_params(tokens[k + 2].inner.as_slice()) {
            None => {
                return None;
            },
            Some(inputs) => inputs,
        };
        let j: usize = k + 3;
        let arrow = n - j >= 2 && punct_is(&tokens[j], '-' as u8) && punct_is(
            &tokens[j + 1],
            '>' as u8,
        );
        let body_at: usize = if arrow {
            find_braced(tokens, j + 2)
        } else {
            j
        };
        if !(body_at < n && tokens[body_at].kind == TokenKind::Braced && (!arrow || body_at > j
            + 2)) {
            return None;
        }
        let output = if arrow {
            Some(join(tokens, j + 2, body_at))
        } else {
            None
        };
        let m = MethodDef {
            priority: copy_text(tokens[a + 2].inner[0].text.as_slice()),
            name: copy_text(tokens[k + 1].text.as_slice()),
            is_async,
            inputs,
            output,
            body: copy_text(tokens[body_at].text.as_slice()),
        };
        Some((m, body_at + 1))
    }

    /// Reads the operations that `tokens` spell.
    pub fn parse_all(tokens: &[Token]) -> (r: Option<Vec<MethodDef>>)
        ensures
            match r {
                Some(v) => spec_methods(tokens@, 0) == Some(v@.map_values(|m: MethodDef| m@)),
                None => spec_methods(tokens@, 0) is None,
            },
    {
        let n: usize = tokens.len();
        let mut acc: Vec<MethodDef> = Vec::new();
        let mut a: usize = 0;
        while a < n
            invariant
                n == tokens@.len(),
                a <= n,
                spec_methods(tokens@, 0) == prepend(
                    acc@.map_values(|m: MethodDef| m@),
                    spec_methods(tokens@, a as int),
                ),
            decreases n - a,
        {
            match MethodDef::parse(tokens, a) {
                None => {
                    return None;
                },
                Some((m, next)) => {
                    let ghost before = acc@.map_values(|m: MethodDef| m@);
                    let ghost item = m@;
                    acc.push(m);
                    proof {
                        assert(acc@.map_values(|m: MethodDef| m@) =~= before.push(item));
                        match spec_methods(tokens@, next as int) {
                            Some(rest) => {
                                assert(before + (seq![item] + rest) =~= before.push(item) + rest);
                            },
                            None => {},
                        }
                    }
                    a = next;
                },
            }
        }
        proof {
            assert(acc@.map_values(|m: MethodDef| m@) + Seq::<MethodView>::empty()
                =~= acc@.map_values(|m: MethodDef| m@));
        }
        Some(acc)
    }
}

impl ActorDef {
    /// Reads the declaration that `tokens` spell. Tokens that spell none are
    /// refused as malformed.
    pub fn parse(tokens: &[Token]) -> (r: Result<ActorDef, DeclarationError>)
        ensures
            match r {
                Ok(def) => spec_actor(tokens@) == Some(def@),
                Err(e) => e == DeclarationError::Malformed && spec_actor(tokens@) is None,
            },
    {
        if !(tokens.len() == 5 && tokens[0].kind == TokenKind::Ident && tokens[1].kind
            == TokenKind::Braced && word_is(&tokens[2], word_impl().as_slice()) && tokens[3].kind
            == TokenKind::Ident && tokens[4].kind == TokenKind::Braced) {
            return Err(DeclarationError::Malformed);
        }
        let fields = match FieldDef::parse_all(tokens[1].inner.as_slice()) {
            None => {
                return Err(DeclarationError::Malformed);
            },
            Some(fields) => fields,
        };
        let methods = match MethodDef::parse_all(tokens[4].inner.as_slice()) {
            None => {
                return Err(DeclarationError::Malformed);
            },
            Some(methods) => methods,
        };
        Ok(
            ActorDef {
                actor_name: copy_text(tokens[0].text.as_slice()),
                fields,
                msg_name: copy_text(tokens[3].text.as_slice()),
                methods,
            },
        )
    }
}

/// Reads the declaration that `tokens` spell and builds the schema of the
/// actor it declares. Tokens that spell no declaration are refused as
/// malformed; a declaration that is not in order is refused with its fault.
pub fn declare_actor(tokens: &[Token]) -> (r: Result<ActorSchema, DeclarationError>)
    ensures
        match r {
            Ok(schema) => {
                &&& spec_actor(tokens@) matches Some(d)
                &&& d.valid()
                &&& schema@ == schema_of(d)
                &&& schema@.wf()
            },
            Err(e) => match spec_actor(tokens@) {
                None => e == DeclarationError::Malformed,
                Some(d) => d.fault() == Some(e),
            },
        },
{
    match ActorDef::parse(tokens) {
        Err(e) => Err(e),
        Ok(def) => define_actor(&def),
    }
}

} // verus!
