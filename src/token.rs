use vstd::prelude::*;
use quote::ToTokens;

verus! {

/// The delimiter of a group of token trees.
#[derive(Debug)]
pub enum Delim {
    Parenthesis,
    Brace,
    Bracket,
    Invisible,
}

/// Whether a punctuation character is joined to the one that follows it (`::`).
#[derive(PartialEq, Eq, Structural, Clone, Copy, Debug)]
pub enum PunctSpacing {
    Alone,
    Joint,
}

/// One lexed token tree: an atom, or a delimited group taken as a whole.
#[derive(Debug)]
pub enum Token {
    Ident(String),
    Punct(Punct),
    Literal(String),
    Group(Delim, Vec<Token>),
}

/// The punctuation characters that a token stream can hold.
pub open spec fn is_punct_char(c: char) -> bool {
    c == '!' || c == '#' || c == '$' || c == '%' || c == '&' || c == '\'' || c == '*' || c == '+'
        || c == ',' || c == '-' || c == '.' || c == '/' || c == ':' || c == ';' || c == '<' || c
        == '=' || c == '>' || c == '?' || c == '@' || c == '^' || c == '|' || c == '~'
}

/// A punctuation character with its spacing; the character is always one of the language's.
#[derive(Debug)]
pub struct Punct {
    ch: char,
    spacing: PunctSpacing,
}

impl Punct {
    #[verifier::type_invariant]
    closed spec fn wf(self) -> bool {
        is_punct_char(self.ch)
    }

    pub closed spec fn spec_char(self) -> char {
        self.ch
    }

    pub closed spec fn spec_spacing(self) -> PunctSpacing {
        self.spacing
    }

    /// The punctuation token `ch`, or `None` where `ch` is no punctuation character.
    pub fn new(ch: char, spacing: PunctSpacing) -> (r: Option<Punct>)
        ensures
            r is Some <==> is_punct_char(ch),
            r matches Some(p) ==> p.spec_char() == ch && p.spec_spacing() == spacing,
    {
        if ch == '!' || ch == '#' || ch == '$' || ch == '%' || ch == '&' || ch == '\'' || ch == '*'
            || ch == '+' || ch == ',' || ch == '-' || ch == '.' || ch == '/' || ch == ':' || ch
            == ';' || ch == '<' || ch == '=' || ch == '>' || ch == '?' || ch == '@' || ch == '^'
            || ch == '|' || ch == '~' {
            Some(Punct { ch, spacing })
        } else {
            None
        }
    }

    pub fn as_char(&self) -> (c: char)
        ensures
            c == self.spec_char(),
    {
        self.ch
    }

    pub fn spacing(&self) -> (s: PunctSpacing)
        ensures
            s == self.spec_spacing(),
    {
        self.spacing
    }
}

/// What went wrong while reading a token run.
#[derive(PartialEq, Eq, Structural, Clone, Copy, Debug)]
pub enum ErrorKind {
    /// A `#` that does not open a well-formed attribute.
    MalformedAttribute,
    /// A visibility marker that syn rejects.
    MalformedVisibility,
    /// `type` not followed by an identifier.
    ExpectedIdent,
    /// No top-level `;` after this point.
    MissingSemicolon,
    /// Tokens left over where the input should have ended.
    UnexpectedToken,
    /// After `unsafe`, the tokens are not exactly one foreign block as syn reads one.
    MalformedBlock,
    /// The first parameter is an attributed receiver.
    ReceiverAttributes,
    /// The first parameter is not a plain `self: Type` binding.
    ExpectedSelfReceiver,
}

/// Where an error is anchored.
#[derive(PartialEq, Eq, Structural, Clone, Copy, Debug)]
pub enum Anchor {
    /// Inside a token run: the number of tokens from the failure point to the end of the run.
    Tokens(usize),
    /// The whole function signature.
    Signature,
    /// The first parameter of the signature.
    FirstArg,
}

/// A fatal error with its anchor.
#[derive(PartialEq, Eq, Structural, Clone, Copy, Debug)]
pub struct Error {
    pub kind: ErrorKind,
    pub anchor: Anchor,
}

/// An attribute, `#[...]` (outer) or `#![...]` (inner), with the tokens inside its brackets.
#[derive(Debug)]
pub struct Attr {
    pub inner: bool,
    pub tokens: Vec<Token>,
}

/// A visibility marker: none, `pub`, `crate`, or `pub(...)` with the tokens inside the
/// parentheses.
#[derive(Debug)]
pub enum Visibility {
    Inherited,
    Public,
    Crate,
    Restricted(Vec<Token>),
}

pub open spec fn is_punct(t: Token, c: char) -> bool {
    t matches Token::Punct(p) && p.spec_char() == c
}

pub open spec fn is_keyword(t: Token, kw: Seq<char>) -> bool {
    t matches Token::Ident(s) && s@ == kw
}

/// Whether syn reads the text as an identifier: one identifier that is not a keyword,
/// possibly with whitespace or comments around it.
pub uninterp spec fn parses_as_ident(s: Seq<char>) -> bool;

/// An identifier token that may name an item.
pub open spec fn is_name(t: Token) -> bool {
    t matches Token::Ident(s) && parses_as_ident(s@)
}

pub open spec fn is_group(t: Token, d: Delim) -> bool {
    t matches Token::Group(g, _) && g == d
}

pub open spec fn kw_pub() -> Seq<char> {
    seq!['p', 'u', 'b']
}

pub open spec fn kw_type() -> Seq<char> {
    seq!['t', 'y', 'p', 'e']
}

pub open spec fn kw_unsafe() -> Seq<char> {
    seq!['u', 'n', 's', 'a', 'f', 'e']
}

pub open spec fn kw_extern() -> Seq<char> {
    seq!['e', 'x', 't', 'e', 'r', 'n']
}

pub open spec fn kw_crate() -> Seq<char> {
    seq!['c', 'r', 'a', 't', 'e']
}

pub open spec fn kw_super() -> Seq<char> {
    seq!['s', 'u', 'p', 'e', 'r']
}

pub open spec fn kw_in() -> Seq<char> {
    seq!['i', 'n']
}

pub open spec fn kw_self() -> Seq<char> {
    seq!['s', 'e', 'l', 'f']
}

/// The tokens inside a group.
pub open spec fn group_body(t: Token) -> Vec<Token>
    recommends
        t is Group,
{
    t->Group_1
}

/// An outer attribute `#[...]` opens the run.
pub open spec fn starts_outer_attr(s: Seq<Token>) -> bool {
    s.len() >= 2 && is_punct(s[0], '#') && is_group(s[1], Delim::Bracket)
}

/// Number of tokens taken by the outer attributes that open the run.
pub open spec fn outer_attrs_len(s: Seq<Token>) -> nat
    decreases s.len(),
{
    if starts_outer_attr(s) {
        2 + outer_attrs_len(s.skip(2))
    } else {
        0
    }
}

/// After the outer attributes, a `#` is left that opens no attribute.
pub open spec fn bad_outer_attr(s: Seq<Token>) -> bool {
    let n = outer_attrs_len(s) as int;
    n < s.len() && is_punct(s[n], '#')
}

/// The tokens inside `pub(...)` make it a restricted visibility: exactly one of `crate`,
/// `self`, `super`, or `in` followed by a path. Otherwise the marker is a bare `pub`.
pub open spec fn restricts(b: Seq<Token>) -> bool {
    ||| b.len() == 1 && (is_keyword(b[0], kw_crate()) || is_keyword(b[0], kw_self())
        || is_keyword(b[0], kw_super()))
    ||| b.len() >= 1 && is_keyword(b[0], kw_in())
}

/// A `pub(...)` group that restricts opens the run.
pub open spec fn restricted_group(s: Seq<Token>) -> bool {
    s.len() >= 1 && is_group(s[0], Delim::Parenthesis) && restricts(group_body(s[0])@)
}

/// Number of tokens that the visibility marker opening the run may take: `pub` with a
/// restricting group, `pub` alone, or `crate` not followed by `::`.
pub open spec fn vis_len(s: Seq<Token>) -> nat {
    if s.len() >= 1 && is_keyword(s[0], kw_pub()) {
        if restricted_group(s.skip(1)) {
            2
        } else {
            1
        }
    } else if s.len() >= 1 && is_keyword(s[0], kw_crate()) && !(s.len() >= 2 && is_punct(
        s[1],
        ':',
    )) {
        1
    } else {
        0
    }
}

/// What syn's `Visibility` parser reads from a whole token run; `None` where it rejects
/// the run or leaves part of it, or where a token's text does not lex.
pub uninterp spec fn syn_visibility(s: Seq<Token>) -> Option<Visibility>;

/// The visibility marker that opens the run, as syn reads its tokens; `None` where syn
/// rejects them (`pub(in)` with no path).
pub open spec fn vis_of(s: Seq<Token>) -> Option<Visibility> {
    if vis_len(s) == 0 {
        Some(Visibility::Inherited)
    } else {
        syn_visibility(s.take(vis_len(s) as int))
    }
}

/// Index of the first `;` at the top level of the run, if any.
pub open spec fn first_semi(s: Seq<Token>) -> Option<nat>
    decreases s.len(),
{
    if s.len() == 0 {
        None
    } else if is_punct(s[0], ';') {
        Some(0)
    } else {
        match first_semi(s.skip(1)) {
            Some(j) => Some(j + 1),
            None => None,
        }
    }
}

pub proof fn lemma_outer_attrs_len_bound(s: Seq<Token>)
    ensures
        outer_attrs_len(s) <= s.len(),
    decreases s.len(),
{
    if starts_outer_attr(s) {
        lemma_outer_attrs_len_bound(s.skip(2));
    }
}

pub proof fn lemma_first_semi_bound(s: Seq<Token>)
    ensures
        first_semi(s) matches Some(j) ==> j < s.len() && is_punct(s[j as int], ';'),
    decreases s.len(),
{
    if s.len() > 0 && !is_punct(s[0], ';') {
        lemma_first_semi_bound(s.skip(1));
    }
}

/// The token at `i` is the punctuation character `c`.
pub fn peek_punct(v: &Vec<Token>, i: usize, c: char) -> (r: bool)
    ensures
        r == (i < v@.len() && is_punct(v@[i as int], c)),
{
    if i < v.len() {
        match &v[i] {
            Token::Punct(p) => p.as_char() == c,
            _ => false,
        }
    } else {
        false
    }
}

/// The token at `i` is the identifier `kw`.
pub fn peek_keyword(v: &Vec<Token>, i: usize, kw: &str) -> (r: bool)
    ensures
        r == (i < v@.len() && is_keyword(v@[i as int], kw@)),
{
    if i < v.len() {
        match &v[i] {
            Token::Ident(s) => *s == kw.to_owned(),
            _ => false,
        }
    } else {
        false
    }
}

#[verifier::external_type_specification]
#[verifier::external_body]
pub struct ExTokenStream(proc_macro2::TokenStream);

#[verifier::external_type_specification]
#[verifier::external_body]
pub struct ExTokenTree(proc_macro2::TokenTree);

#[verifier::external_type_specification]
#[verifier::external_body]
pub struct ExSpacing(proc_macro2::Spacing);

#[verifier::external_type_specification]
#[verifier::external_body]
pub struct ExDelimiter(proc_macro2::Delimiter);

/// Relies on `proc_macro2::Spacing`: the variant named as the library's `PunctSpacing` one.
#[verifier::external_body]
fn spacing_of(s: PunctSpacing) -> proc_macro2::Spacing {
    match s {
        PunctSpacing::Alone => proc_macro2::Spacing::Alone,
        PunctSpacing::Joint => proc_macro2::Spacing::Joint,
    }
}

/// Relies on `proc_macro2::Spacing`: its variant as the library's `PunctSpacing` of that name.
#[verifier::external_body]
fn spacing_from(s: proc_macro2::Spacing) -> PunctSpacing {
    match s {
        proc_macro2::Spacing::Alone => PunctSpacing::Alone,
        proc_macro2::Spacing::Joint => PunctSpacing::Joint,
    }
}

/// Relies on `proc_macro2::Delimiter`: the variant for the library's `Delim` (`None` for `Invisible`).
#[verifier::external_body]
fn delimiter_of(d: &Delim) -> proc_macro2::Delimiter {
    match d {
        Delim::Parenthesis => proc_macro2::Delimiter::Parenthesis,
        Delim::Brace => proc_macro2::Delimiter::Brace,
        Delim::Bracket => proc_macro2::Delimiter::Bracket,
        Delim::Invisible => proc_macro2::Delimiter::None,
    }
}

/// Relies on `proc_macro2::Delimiter`: its variant as the library's `Delim` (`Invisible` for `None`).
#[verifier::external_body]
fn delimiter_from(d: proc_macro2::Delimiter) -> Delim {
    match d {
        proc_macro2::Delimiter::Parenthesis => Delim::Parenthesis,
        proc_macro2::Delimiter::Brace => Delim::Brace,
        proc_macro2::Delimiter::Bracket => Delim::Bracket,
        proc_macro2::Delimiter::None => Delim::Invisible,
    }
}

/// Relies on proc_macro2's lexer (`str::parse` into `TokenStream`) for the text of an
/// identifier or a literal, and on `Punct::new` and `Group::new`, which cannot panic here:
/// a `Punct` holds one of the characters that `Punct::new` accepts. `None` where a text
/// does not lex.
#[verifier::external_body]
fn tree_of(t: &Token) -> Option<proc_macro2::TokenStream> {
    match t {
        Token::Ident(text) | Token::Literal(text) => text.parse().ok(),
        Token::Punct(p) => Some(
            proc_macro2::TokenTree::from(proc_macro2::Punct::new(p.ch, spacing_of(p.spacing))).into(),
        ),
        Token::Group(d, body) => stream_of(body).map(
            |inside| proc_macro2::TokenTree::from(proc_macro2::Group::new(delimiter_of(d), inside)).into(),
        ),
    }
}

/// Relies on proc_macro2's `TokenStream: FromIterator<TokenStream>`: the trees in order.
#[verifier::external_body]
pub(crate) fn stream_of(v: &Vec<Token>) -> Option<proc_macro2::TokenStream> {
    v.iter().map(tree_of).collect()
}

/// Relies on `proc_macro2::TokenTree` accessors: the same token, its text, character,
/// spacing or delimiter. A `Punct` of proc_macro2 only holds characters that `Punct::new`
/// accepts.
#[verifier::external_body]
fn tree_from(t: proc_macro2::TokenTree) -> Token {
    match t {
        proc_macro2::TokenTree::Ident(i) => Token::Ident(i.to_string()),
        proc_macro2::TokenTree::Punct(p) => Token::Punct(
            Punct { ch: p.as_char(), spacing: spacing_from(p.spacing()) },
        ),
        proc_macro2::TokenTree::Literal(l) => Token::Literal(l.to_string()),
        proc_macro2::TokenTree::Group(g) => Token::Group(
            delimiter_from(g.delimiter()),
            tokens_from(g.stream()),
        ),
    }
}

/// Relies on proc_macro2's `TokenStream::into_iter`: the trees in order.
#[verifier::external_body]
pub(crate) fn tokens_from(ts: proc_macro2::TokenStream) -> Vec<Token> {
    ts.into_iter().map(tree_from).collect()
}

/// Relies on `syn::parse_str::<syn::Ident>`: it succeeds exactly on the text of one
/// identifier that is not a keyword, possibly with whitespace or comments around it.
#[verifier::external_body]
fn ident_parses(s: &String) -> (r: bool)
    ensures
        r == parses_as_ident(s@),
{
    syn::parse_str::<syn::Ident>(s).is_ok()
}

/// The token at `i` is an identifier that may name an item.
pub fn peek_name(v: &Vec<Token>, i: usize) -> (r: bool)
    ensures
        r == (i < v@.len() && is_name(v@[i as int])),
{
    if i < v.len() {
        match &v[i] {
            Token::Ident(s) => ident_parses(s),
            _ => false,
        }
    } else {
        false
    }
}

/// The token at `i` is a group with delimiter `d`.
pub fn peek_group(v: &Vec<Token>, i: usize, d: &Delim) -> (r: bool)
    ensures
        r == (i < v@.len() && is_group(v@[i as int], *d)),
{
    if i < v.len() {
        match &v[i] {
            Token::Group(g, _) => match (g, d) {
                (Delim::Parenthesis, Delim::Parenthesis) => true,
                (Delim::Brace, Delim::Brace) => true,
                (Delim::Bracket, Delim::Bracket) => true,
                (Delim::Invisible, Delim::Invisible) => true,
                _ => false,
            },
            _ => false,
        }
    } else {
        false
    }
}

/// Takes the first token out of the run.
pub fn take_front(v: &mut Vec<Token>) -> (t: Token)
    requires
        old(v)@.len() > 0,
    ensures
        t == old(v)@[0],
        final(v)@ == old(v)@.skip(1),
{
    let t = v.remove(0);
    assert(v@ =~= old(v)@.skip(1));
    t
}

/// What syn's `Attribute::parse_outer` reads from a whole token run; `None` where it
/// rejects the run or leaves part of it, or where a token's text does not lex.
pub uninterp spec fn syn_outer_attrs(s: Seq<Token>) -> Option<Seq<Attr>>;

/// The outer attributes that open the run, as syn reads the `#[...]` tokens there.
pub open spec fn leading_attrs(s: Seq<Token>) -> Option<Seq<Attr>> {
    syn_outer_attrs(s.take(outer_attrs_len(s) as int))
}

/// The attributes that open the run are malformed: a `#` without brackets follows them,
/// or syn rejects them (an attribute must start with a path).
pub open spec fn attrs_fail(s: Seq<Token>) -> bool {
    bad_outer_attr(s) || leading_attrs(s) is None
}

/// The error for malformed leading attributes: at the stray `#`, or at the first attribute.
pub open spec fn attrs_error(s: Seq<Token>) -> Error {
    Error {
        kind: ErrorKind::MalformedAttribute,
        anchor: Anchor::Tokens(
            if bad_outer_attr(s) {
                (s.len() - outer_attrs_len(s)) as usize
            } else {
                s.len() as usize
            },
        ),
    }
}

#[verifier::external_type_specification]
#[verifier::external_body]
pub struct ExSynAttribute(syn::Attribute);

/// Relies on syn's `Attribute` fields: its style, and its path followed by its tokens,
/// which are the tokens inside the brackets.
#[verifier::external_body]
pub(crate) fn attr_from(a: &syn::Attribute) -> Attr {
    let mut inside = a.path.to_token_stream();
    inside.extend(a.tokens.clone());
    Attr { inner: matches!(a.style, syn::AttrStyle::Inner(_)), tokens: tokens_from(inside) }
}

/// Relies on `syn::Attribute::parse_outer` run by `syn::parse::Parser::parse2`: reads the
/// whole run as outer attributes, or fails.
#[verifier::external_body]
fn syn_parse_outer_attrs(s: &Vec<Token>) -> (r: Option<Vec<Attr>>)
    ensures
        match r {
            None => syn_outer_attrs(s@) is None,
            Some(a) => syn_outer_attrs(s@) == Some(a@),
        },
{
    let attrs = syn::parse::Parser::parse2(syn::Attribute::parse_outer, stream_of(s)?).ok()?;
    Some(attrs.iter().map(attr_from).collect())
}

/// Number of tokens taken by the `#[...]` pairs at the front of the run.
fn scan_outer_attrs(v: &Vec<Token>) -> (n: usize)
    ensures
        n == outer_attrs_len(v@),
        n <= v@.len(),
{
    let mut k: usize = 0;
    proof {
        lemma_outer_attrs_len_bound(v@);
    }
    assert(v@.skip(0) =~= v@);
    while k < v.len() && peek_punct(v, k, '#') && peek_group(v, k + 1, &Delim::Bracket)
        invariant
            k <= v@.len(),
            outer_attrs_len(v@) == k + outer_attrs_len(v@.skip(k as int)),
        decreases v@.len() - k,
    {
        let ghost s = v@.skip(k as int);
        assert(s[0] == v@[k as int] && s[1] == v@[k + 1]);
        assert(s.skip(2) =~= v@.skip(k + 2));
        k = k + 2;
    }
    let ghost s = v@.skip(k as int);
    assert(k < v@.len() ==> s[0] == v@[k as int]);
    assert(k + 1 < v@.len() ==> s[1] == v@[k + 1]);
    k
}

/// Reads the outer attributes at the front of the run with syn; a `#` left after them, or
/// attributes that syn rejects, are an error.
pub fn parse_outer_attrs(v: &mut Vec<Token>) -> (r: Result<Vec<Attr>, Error>)
    ensures
        attrs_fail(old(v)@) <==> r is Err,
        r matches Err(e) ==> e == attrs_error(old(v)@),
        r matches Ok(attrs) ==> leading_attrs(old(v)@) == Some(attrs@) && final(v)@ == old(v)@.skip(
            outer_attrs_len(old(v)@) as int,
        ),
{
    let total = v.len();
    let n = scan_outer_attrs(v);
    if peek_punct(v, n, '#') {
        return Err(Error { kind: ErrorKind::MalformedAttribute, anchor: Anchor::Tokens(total - n) });
    }
    let rest = v.split_off(n);
    assert(v@ =~= old(v)@.take(n as int));
    assert(rest@ =~= old(v)@.skip(n as int));
    let parsed = syn_parse_outer_attrs(v);
    *v = rest;
    match parsed {
        None => Err(Error { kind: ErrorKind::MalformedAttribute, anchor: Anchor::Tokens(total) }),
        Some(attrs) => Ok(attrs),
    }
}

/// Relies on `syn::parse2::<syn::Visibility>`: reads the whole run as one visibility, or
/// fails. Each variant of syn's `Visibility` becomes the same variant here; a restricted one
/// keeps its `in` and path, the tokens inside its parentheses.
#[verifier::external_body]
fn syn_parse_visibility(s: &Vec<Token>) -> (r: Option<Visibility>)
    ensures
        r == syn_visibility(s@),
{
    match syn::parse2::<syn::Visibility>(stream_of(s)?).ok()? {
        syn::Visibility::Public(_) => Some(Visibility::Public),
        syn::Visibility::Crate(_) => Some(Visibility::Crate),
        syn::Visibility::Restricted(r) => {
            let mut inside = r.in_token.to_token_stream();
            inside.extend(r.path.to_token_stream());
            Some(Visibility::Restricted(tokens_from(inside)))
        },
        syn::Visibility::Inherited => Some(Visibility::Inherited),
    }
}

/// Number of tokens that the visibility marker at the front of the run may take.
fn scan_vis(v: &Vec<Token>) -> (n: usize)
    ensures
        n == vis_len(v@),
        n <= v@.len(),
{
    proof {
        reveal_strlit("pub");
        reveal_strlit("crate");
        assert("pub"@ =~= kw_pub());
        assert("crate"@ =~= kw_crate());
    }
    if peek_keyword(v, 0, "pub") {
        if peek_restricted_group(v, 1) {
            2
        } else {
            1
        }
    } else if peek_keyword(v, 0, "crate") && !peek_punct(v, 1, ':') {
        1
    } else {
        0
    }
}

/// Reads the visibility marker at the front of the run with syn; a marker that syn rejects
/// is an error anchored at its start.
pub fn parse_vis(v: &mut Vec<Token>) -> (r: Result<Visibility, Error>)
    ensures
        match r {
            Ok(vis) => vis_of(old(v)@) == Some(vis) && final(v)@ == old(v)@.skip(
                vis_len(old(v)@) as int,
            ),
            Err(e) => vis_of(old(v)@) is None && e == (Error {
                kind: ErrorKind::MalformedVisibility,
                anchor: Anchor::Tokens(old(v)@.len() as usize),
            }),
        },
{
    let total = v.len();
    let n = scan_vis(v);
    if n == 0 {
        assert(v@ =~= old(v)@.skip(0));
        return Ok(Visibility::Inherited);
    }
    let rest = v.split_off(n);
    assert(v@ =~= old(v)@.take(n as int));
    assert(rest@ =~= old(v)@.skip(n as int));
    let parsed = syn_parse_visibility(v);
    *v = rest;
    match parsed {
        None => Err(Error { kind: ErrorKind::MalformedVisibility, anchor: Anchor::Tokens(total) }),
        Some(vis) => Ok(vis),
    }
}

/// The token at `i` is a `pub(...)` group that restricts.
fn peek_restricted_group(v: &Vec<Token>, i: usize) -> (r: bool)
    ensures
        r == (i <= v@.len() && restricted_group(v@.skip(i as int))),
{
    if !peek_group(v, i, &Delim::Parenthesis) {
        proof {
            if i <= v@.len() {
                assert(v@.skip(i as int).len() >= 1 ==> v@.skip(i as int)[0] == v@[i as int]);
            }
        }
        return false;
    }
    assert(v@.skip(i as int)[0] == v@[i as int]);
    match &v[i] {
        Token::Group(_, body) => {
            proof {
                reveal_strlit("crate");
                reveal_strlit("self");
                reveal_strlit("super");
                reveal_strlit("in");
                assert("crate"@ =~= kw_crate());
                assert("self"@ =~= kw_self());
                assert("super"@ =~= kw_super());
                assert("in"@ =~= kw_in());
            }
            (body.len() == 1 && (peek_keyword(body, 0, "crate") || peek_keyword(body, 0, "self")
                || peek_keyword(body, 0, "super"))) || peek_keyword(body, 0, "in")
        },
        _ => false,
    }
}

/// Index of the first top-level `;` at or after `i`.
pub fn scan_semi(v: &Vec<Token>, i: usize) -> (r: Option<usize>)
    requires
        i <= v@.len(),
    ensures
        r matches Some(j) ==> first_semi(v@.skip(i as int)) == Some((j - i) as nat) && i <= j,
        r is None ==> first_semi(v@.skip(i as int)) is None,
{
    let mut k: usize = i;
    while k < v.len()
        invariant
            i <= k <= v@.len(),
            first_semi(v@.skip(i as int)) == match first_semi(v@.skip(k as int)) {
                Some(j) => Some((j + (k - i)) as nat),
                None => None::<nat>,
            },
        decreases v@.len() - k,
    {
        if peek_punct(v, k, ';') {
            return Some(k);
        }
        assert(v@.skip(k as int).skip(1) =~= v@.skip(k + 1));
        k = k + 1;
    }
    None
}

} // verus!
