use vstd::prelude::*;
use crate::token::{
    attr_from, attrs_error, attrs_fail, first_semi, is_keyword, is_name, is_punct, kw_extern,
    kw_type, kw_unsafe, leading_attrs, lemma_first_semi_bound, lemma_outer_attrs_len_bound,
    outer_attrs_len, parse_outer_attrs, parse_vis, peek_keyword, peek_name, scan_semi, stream_of,
    take_front, tokens_from, vis_len, vis_of, Anchor, Attr, Error, ErrorKind, Token, Visibility,
};
use quote::ToTokens;

verus! {

/// A type declaration of a foreign block: `#[attrs] vis type Ident;`.
#[derive(Debug)]
pub struct ForeignItemType {
    pub attrs: Vec<Attr>,
    pub vis: Visibility,
    pub ident: String,
}

/// The mathematical value of a [`ForeignItemType`].
pub struct TypeDecl {
    pub attrs: Seq<Attr>,
    pub vis: Visibility,
    pub ident: Seq<char>,
}

impl View for ForeignItemType {
    type V = TypeDecl;

    open spec fn view(&self) -> TypeDecl {
        TypeDecl { attrs: self.attrs@, vis: self.vis, ident: self.ident@ }
    }
}

pub open spec fn err_at(kind: ErrorKind, remaining: int) -> Error {
    Error { kind, anchor: Anchor::Tokens(remaining as usize) }
}

/// What reading a verbatim token run as a type declaration gives.
///
/// Leading attributes and a visibility marker, then `type` and an identifier; every
/// token after that up to the first top-level `;` (an `= Target`, bounds) is dropped.
/// A run that does not reach `type` there is no type declaration (`Ok(None)`).
pub open spec fn verbatim_type(s: Seq<Token>) -> Result<Option<TypeDecl>, Error> {
    let na = outer_attrs_len(s) as int;
    let r1 = s.skip(na);
    let r2 = r1.skip(vis_len(r1) as int);
    let r3 = r2.skip(2);
    if attrs_fail(s) {
        Err(attrs_error(s))
    } else if vis_of(r1) is None {
        Err(err_at(ErrorKind::MalformedVisibility, r1.len() as int))
    } else if !(r2.len() > 0 && is_keyword(r2[0], kw_type())) {
        Ok(None)
    } else if !(r2.len() > 1 && is_name(r2[1])) {
        Err(err_at(ErrorKind::ExpectedIdent, r2.len() - 1))
    } else {
        match first_semi(r3) {
            None => Err(err_at(ErrorKind::MissingSemicolon, r3.len() as int)),
            Some(j) => if j + 1 < r3.len() {
                Err(err_at(ErrorKind::UnexpectedToken, r3.len() - j - 1))
            } else {
                Ok(Some(TypeDecl { attrs: leading_attrs(s)->Some_0, vis: vis_of(r1)->Some_0, ident: r2[1]->Ident_0@ }))
            },
        }
    }
}

pub open spec fn type_result_view(r: Result<Option<ForeignItemType>, Error>) -> Result<
    Option<TypeDecl>,
    Error,
> {
    match r {
        Ok(Some(t)) => Ok(Some(t@)),
        Ok(None) => Ok(None),
        Err(e) => Err(e),
    }
}

/// Reads a verbatim token run as a type declaration, dropping whatever follows its name
/// up to the terminating `;`.
pub fn verbatim_to_foreign_type(tokens: Vec<Token>) -> (r: Result<
    Option<ForeignItemType>,
    Error,
>)
    ensures
        type_result_view(r) == verbatim_type(tokens@),
{
    let mut input = tokens;
    let attrs = match parse_outer_attrs(&mut input) {
        Ok(a) => a,
        Err(e) => return Err(e),
    };
    let vis = match parse_vis(&mut input) {
        Ok(v) => v,
        Err(e) => return Err(e),
    };
    let ghost r2 = input@;
    proof {
        reveal_strlit("type");
        assert("type"@ =~= kw_type());
    }
    if !peek_keyword(&input, 0, "type") {
        return Ok(None);
    }
    take_front(&mut input);
    if !peek_name(&input, 0) {
        return Err(Error { kind: ErrorKind::ExpectedIdent, anchor: Anchor::Tokens(input.len()) });
    }
    let ident = match take_front(&mut input) {
        Token::Ident(name) => name,
        _ => {
            assert(false);
            String::new()
        },
    };
    assert(input@ =~= r2.skip(2));
    match scan_semi(&input, 0) {
        None => {
            assert(input@.skip(0) =~= input@);
            Err(Error { kind: ErrorKind::MissingSemicolon, anchor: Anchor::Tokens(input.len()) })
        },
        Some(j) => {
            assert(input@.skip(0) =~= input@);
            assert(first_semi(input@) == Some(j as nat));
            proof {
                lemma_first_semi_bound(input@);
            }
            if input.len() - j > 1 {
                Err(
                    Error {
                        kind: ErrorKind::UnexpectedToken,
                        anchor: Anchor::Tokens(input.len() - j - 1),
                    },
                )
            } else {
                Ok(Some(ForeignItemType { attrs, vis, ident }))
            }
        },
    }
}

/// One item of a foreign block.
#[derive(Debug)]
pub enum BlockItem {
    /// A plain type declaration, `type A;`.
    Type(ForeignItemType),
    /// A type item with more syntax than a plain declaration (`type B = C;`), kept as tokens.
    Verbatim(Vec<Token>),
    /// Any other item (a function, a static, a macro), kept as tokens.
    Other(Vec<Token>),
}

/// The mathematical value of a [`BlockItem`].
pub enum ItemView {
    Type(TypeDecl),
    Verbatim(Seq<Token>),
    Other(Seq<Token>),
}

impl View for BlockItem {
    type V = ItemView;

    open spec fn view(&self) -> ItemView {
        match self {
            BlockItem::Type(t) => ItemView::Type(t@),
            BlockItem::Verbatim(v) => ItemView::Verbatim(v@),
            BlockItem::Other(v) => ItemView::Other(v@),
        }
    }
}

/// A foreign block: its attributes (those written before it first, then its own), its ABI
/// string and its items in order.
#[derive(Debug)]
pub struct ItemForeignMod {
    pub attrs: Vec<Attr>,
    pub abi: Option<String>,
    pub items: Vec<BlockItem>,
}

/// The type declaration that an item stands for, if any.
pub open spec fn item_type(it: ItemView) -> Result<Option<TypeDecl>, Error> {
    match it {
        ItemView::Type(t) => Ok(Some(t)),
        ItemView::Verbatim(ts) => verbatim_type(ts),
        ItemView::Other(_) => Ok(None),
    }
}

/// The type declarations of a sequence of items, in order; the first error met wins.
pub open spec fn item_types(items: Seq<ItemView>) -> Result<Seq<TypeDecl>, Error>
    decreases items.len(),
{
    if items.len() == 0 {
        Ok(seq![])
    } else {
        match item_types(items.drop_last()) {
            Err(e) => Err(e),
            Ok(prev) => match item_type(items.last()) {
                Err(e) => Err(e),
                Ok(None) => Ok(prev),
                Ok(Some(t)) => Ok(prev.push(t)),
            },
        }
    }
}

pub open spec fn items_view(items: Seq<BlockItem>) -> Seq<ItemView> {
    items.map_values(|it: BlockItem| it@)
}

pub open spec fn decls_view(ts: Seq<ForeignItemType>) -> Seq<TypeDecl> {
    ts.map_values(|t: ForeignItemType| t@)
}

/// An error in the item types of a prefix is the error of the whole sequence.
pub proof fn lemma_item_types_prefix_err(s: Seq<ItemView>, n: int)
    requires
        0 <= n <= s.len(),
        item_types(s.take(n)) is Err,
    ensures
        item_types(s) == item_types(s.take(n)),
    decreases s.len() - n,
{
    if n < s.len() {
        assert(s.take(n + 1).drop_last() =~= s.take(n));
        lemma_item_types_prefix_err(s, n + 1);
    } else {
        assert(s.take(n) =~= s);
    }
}

/// The type declaration that a foreign item stands for: a plain one as it is, a verbatim
/// one read again with its right-hand side dropped, none for any other item.
pub fn foreign_item_to_type(foreign_item: BlockItem) -> (r: Result<
    Option<ForeignItemType>,
    Error,
>)
    ensures
        type_result_view(r) == item_type(foreign_item@),
{
    match foreign_item {
        BlockItem::Type(foreign_type) => Ok(Some(foreign_type)),
        BlockItem::Verbatim(tokens) => verbatim_to_foreign_type(tokens),
        BlockItem::Other(_) => Ok(None),
    }
}

/// The type declarations of a foreign block, in order; stops at the first error.
pub fn foreign_mod_to_foreign_item_types(foreign_mod: ItemForeignMod) -> (r: Result<
    Vec<ForeignItemType>,
    Error,
>)
    ensures
        item_types(items_view(foreign_mod.items@)) == match r {
            Ok(v) => Ok::<Seq<TypeDecl>, Error>(decls_view(v@)),
            Err(e) => Err::<Seq<TypeDecl>, Error>(e),
        },
{
    let ghost s0 = foreign_mod.items@;
    let mut items = foreign_mod.items;
    let mut out: Vec<ForeignItemType> = Vec::new();
    let ghost mut k: int = 0;
    assert(items_view(s0).take(0) =~= seq![]);
    assert(decls_view(out@) =~= seq![]);
    assert(s0.skip(0) =~= s0);
    while items.len() > 0
        invariant
            0 <= k <= s0.len(),
            s0 == foreign_mod.items@,
            items@ == s0.skip(k),
            item_types(items_view(s0).take(k)) == Ok::<Seq<TypeDecl>, Error>(decls_view(out@)),
        decreases items@.len(),
    {
        let item = items.remove(0);
        proof {
            assert(item == s0[k]);
            assert(items_view(s0).take(k + 1).drop_last() =~= items_view(s0).take(k));
            assert(items_view(s0).take(k + 1).last() == item@);
            assert(items@ =~= s0.skip(k + 1));
        }
        let ghost out_before = out@;
        match foreign_item_to_type(item) {
            Ok(Some(t)) => {
                out.push(t);
                assert(decls_view(out@) =~= decls_view(out_before).push(out@.last()@));
            },
            Ok(None) => {},
            Err(e) => {
                proof {
                    assert(item_types(items_view(s0).take(k + 1)) == Err::<Seq<TypeDecl>, Error>(e));
                    lemma_item_types_prefix_err(items_view(s0), k + 1);
                    assert(item_types(items_view(s0)) == Err::<Seq<TypeDecl>, Error>(e));
                }
                return Err(e);
            },
        }
        proof {
            k = k + 1;
        }
    }
    assert(items_view(s0).take(k) =~= items_view(s0));
    Ok(out)
}

/// What kind of item syn read in a foreign block.
#[derive(PartialEq, Eq, Structural, Clone, Copy, Debug)]
pub enum ItemKind {
    /// A plain type declaration.
    Type,
    /// An item that syn keeps as tokens (`type B = C;`).
    Verbatim,
    /// Any other item: a function, a static, a macro.
    Other,
}

/// A foreign block as syn reads it: its own attributes, its ABI text and its items, each
/// with its kind and its tokens.
pub struct SynMod {
    pub attrs: Seq<Attr>,
    pub abi: Option<Seq<char>>,
    pub items: Seq<(ItemKind, Seq<Token>)>,
}

/// What syn reads from a token run as one foreign block `extern "abi" { ... }`; `None`
/// where syn rejects the run, or where a token's text does not lex.
pub uninterp spec fn syn_foreign_mod(s: Seq<Token>) -> Option<SynMod>;

pub open spec fn kinds_view(v: Seq<(ItemKind, Vec<Token>)>) -> Seq<(ItemKind, Seq<Token>)> {
    v.map_values(|p: (ItemKind, Vec<Token>)| (p.0, p.1@))
}

#[verifier::external_type_specification]
#[verifier::external_body]
pub struct ExSynForeignItem(syn::ForeignItem);

/// Relies on syn's `ForeignItem` variants and `ToTokens`: the item's kind and its tokens.
#[verifier::external_body]
fn item_from(i: &syn::ForeignItem) -> (ItemKind, Vec<Token>) {
    match i {
        syn::ForeignItem::Type(t) => (ItemKind::Type, tokens_from(t.to_token_stream())),
        syn::ForeignItem::Verbatim(ts) => (ItemKind::Verbatim, tokens_from(ts.clone())),
        other => (ItemKind::Other, tokens_from(other.to_token_stream())),
    }
}

/// Relies on `syn::parse2::<syn::ItemForeignMod>`: reads the whole run as one foreign
/// block, or fails.
#[verifier::external_body]
fn syn_parse_foreign_mod(s: &Vec<Token>) -> (r: Option<
    (Vec<Attr>, Option<String>, Vec<(ItemKind, Vec<Token>)>),
>)
    ensures
        match r {
            None => syn_foreign_mod(s@) is None,
            Some(m) => syn_foreign_mod(s@) == Some(
                SynMod {
                    attrs: m.0@,
                    abi: match m.1 {
                        Some(a) => Some(a@),
                        None => None,
                    },
                    items: kinds_view(m.2@),
                },
            ),
        },
{
    let m = syn::parse2::<syn::ItemForeignMod>(stream_of(s)?).ok()?;
    let attrs = m.attrs.iter().map(attr_from).collect();
    let abi = m.abi.name.map(|name| name.to_token_stream().to_string());
    Some((attrs, abi, m.items.iter().map(item_from).collect()))
}

/// The item that a kind and its tokens stand for: a type item is read again as a
/// declaration; `None` where that does not give one.
pub open spec fn item_of(k: ItemKind, t: Seq<Token>) -> Option<ItemView> {
    match k {
        ItemKind::Type => match verbatim_type(t) {
            Ok(Some(d)) => Some(ItemView::Type(d)),
            _ => None,
        },
        ItemKind::Verbatim => Some(ItemView::Verbatim(t)),
        ItemKind::Other => Some(ItemView::Other(t)),
    }
}

/// The items of a block, in order; `None` where one of them is `None`.
pub open spec fn block_items(v: Seq<(ItemKind, Seq<Token>)>) -> Option<Seq<ItemView>>
    decreases v.len(),
{
    if v.len() == 0 {
        Some(seq![])
    } else {
        match (block_items(v.drop_last()), item_of(v.last().0, v.last().1)) {
            (Some(prev), Some(it)) => Some(prev.push(it)),
            _ => None,
        }
    }
}

/// Turns the items that syn read into the library's items, in order.
pub fn read_block_items(raw: Vec<(ItemKind, Vec<Token>)>) -> (r: Option<Vec<BlockItem>>)
    ensures
        block_items(kinds_view(raw@)) == match r {
            Some(v) => Some(items_view(v@)),
            None => None::<Seq<ItemView>>,
        },
{
    let ghost s0 = kinds_view(raw@);
    let mut rest = raw;
    let mut out: Vec<BlockItem> = Vec::new();
    let ghost mut k: int = 0;
    assert(s0.take(0) =~= seq![]);
    assert(items_view(out@) =~= seq![]);
    while rest.len() > 0
        invariant
            0 <= k <= s0.len(),
            s0 == kinds_view(raw@),
            kinds_view(rest@) == s0.skip(k),
            block_items(s0.take(k)) == Some(items_view(out@)),
        decreases rest@.len(),
    {
        let ghost cur = rest@;
        let (kind, tokens) = rest.remove(0);
        proof {
            assert(kinds_view(cur).len() == cur.len());
            assert(s0.skip(k)[0] == s0[k]);
            assert(kinds_view(cur)[0] == s0[k]);
            assert(kinds_view(rest@) =~= kinds_view(cur).skip(1));
            assert(kinds_view(cur).skip(1) =~= s0.skip(k + 1));
            assert(s0.take(k + 1).drop_last() =~= s0.take(k));
            assert(s0.take(k + 1).last() == (kind, tokens@));
        }
        let ghost out_before = out@;
        let item = match kind {
            ItemKind::Type => match verbatim_to_foreign_type(tokens) {
                Ok(Some(d)) => BlockItem::Type(d),
                _ => {
                    proof {
                        lemma_block_items_prefix_none(s0, k + 1);
                    }
                    return None;
                },
            },
            ItemKind::Verbatim => BlockItem::Verbatim(tokens),
            ItemKind::Other => BlockItem::Other(tokens),
        };
        out.push(item);
        assert(items_view(out@) =~= items_view(out_before).push(item@));
        proof {
            k = k + 1;
        }
    }
    assert(s0.take(k) =~= s0);
    Some(out)
}

/// A `None` for a prefix of a block's items is `None` for the whole block.
proof fn lemma_block_items_prefix_none(s: Seq<(ItemKind, Seq<Token>)>, n: int)
    requires
        0 <= n <= s.len(),
        block_items(s.take(n)) is None,
    ensures
        block_items(s) is None,
    decreases s.len() - n,
{
    if n < s.len() {
        assert(s.take(n + 1).drop_last() =~= s.take(n));
        lemma_block_items_prefix_none(s, n + 1);
    } else {
        assert(s.take(n) =~= s);
    }
}

/// The mathematical value of an [`ItemForeignMod`].
pub struct ModView {
    pub attrs: Seq<Attr>,
    pub abi: Option<Seq<char>>,
    pub items: Seq<ItemView>,
}

impl View for ItemForeignMod {
    type V = ModView;

    open spec fn view(&self) -> ModView {
        ModView {
            attrs: self.attrs@,
            abi: match self.abi {
                Some(a) => Some(a@),
                None => None,
            },
            items: items_view(self.items@),
        }
    }
}

/// A foreign block from its parts: the attributes written before it, then its own, its
/// ABI, and its items as syn read them; `None` where a type item does not read back as a
/// declaration.
pub fn foreign_mod_from_parts(
    leading: Vec<Attr>,
    own: Vec<Attr>,
    abi: Option<String>,
    raw: Vec<(ItemKind, Vec<Token>)>,
) -> (r: Option<ItemForeignMod>)
    ensures
        match r {
            Some(m) => block_items(kinds_view(raw@)) == Some(m@.items) && m@.attrs == leading@
                + own@ && m@.abi == match abi {
                Some(a) => Some(a@),
                None => None::<Seq<char>>,
            },
            None => block_items(kinds_view(raw@)) is None,
        },
{
    let mut attrs = leading;
    let mut own_attrs = own;
    match read_block_items(raw) {
        None => None,
        Some(items) => {
            attrs.append(&mut own_attrs);
            assert(attrs@ =~= leading@ + own@);
            Some(ItemForeignMod { attrs, abi, items })
        },
    }
}

/// What reading a token run as `#[attrs] unsafe extern "abi" { ... }` gives.
///
/// A run that does not reach `unsafe extern` after its attributes is no foreign block
/// (`Ok(None)`), whatever follows. Otherwise everything after `unsafe` must be one foreign
/// block as syn reads it; its attributes are the leading ones followed by the block's own.
pub open spec fn verbatim_mod(s: Seq<Token>) -> Result<Option<ModView>, Error> {
    let na = outer_attrs_len(s) as int;
    let r1 = s.skip(na);
    let block = r1.skip(1);
    if attrs_fail(s) {
        Err(attrs_error(s))
    } else if !(r1.len() >= 2 && is_keyword(r1[0], kw_unsafe()) && is_keyword(r1[1], kw_extern())) {
        Ok(None)
    } else {
        match syn_foreign_mod(block) {
            None => Err(err_at(ErrorKind::MalformedBlock, block.len() as int)),
            Some(m) => match block_items(m.items) {
                None => Err(err_at(ErrorKind::MalformedBlock, block.len() as int)),
                Some(items) => Ok(
                    Some(ModView { attrs: leading_attrs(s)->Some_0 + m.attrs, abi: m.abi, items }),
                ),
            },
        }
    }
}

pub open spec fn mod_result_view(r: Result<Option<ItemForeignMod>, Error>) -> Result<
    Option<ModView>,
    Error,
> {
    match r {
        Ok(Some(m)) => Ok(Some(m@)),
        Ok(None) => Ok(None),
        Err(e) => Err(e),
    }
}

/// Reads a token run as an `unsafe extern` block with leading attributes, which are put
/// before the block's own. Any other run is consumed whole and gives `Ok(None)`.
pub fn verbatim_to_foreign_mod(tokens: Vec<Token>) -> (r: Result<
    Option<ItemForeignMod>,
    Error,
>)
    ensures
        mod_result_view(r) == verbatim_mod(tokens@),
{
    let mut input = tokens;
    let attrs = match parse_outer_attrs(&mut input) {
        Ok(a) => a,
        Err(e) => return Err(e),
    };
    let ghost r1 = input@;
    proof {
        reveal_strlit("unsafe");
        reveal_strlit("extern");
        assert("unsafe"@ =~= kw_unsafe());
        assert("extern"@ =~= kw_extern());
    }
    if !(peek_keyword(&input, 0, "unsafe") && peek_keyword(&input, 1, "extern")) {
        return Ok(None);
    }
    take_front(&mut input);
    let malformed = Error { kind: ErrorKind::MalformedBlock, anchor: Anchor::Tokens(input.len()) };
    match syn_parse_foreign_mod(&input) {
        None => Err(malformed),
        Some((own, abi, raw)) => match foreign_mod_from_parts(attrs, own, abi, raw) {
            None => Err(malformed),
            Some(m) => Ok(Some(m)),
        },
    }
}

/// When every item of a block is a well-formed type declaration, plain or aliased, the
/// extraction keeps every one of them, in their order: a plain one as it is, an aliased
/// one with the attributes that were written before it.
pub proof fn law_all_type_items_kept(items: Seq<ItemView>)
    requires
        forall|i: int| 0 <= i < items.len() ==> (#[trigger] item_type(items[i])) is Ok && item_type(
            items[i],
        )->Ok_0 is Some,
    ensures
        item_types(items) is Ok,
        item_types(items)->Ok_0.len() == items.len(),
        forall|i: int|
            0 <= i < items.len() ==> item_type(#[trigger] items[i]) == Ok::<Option<TypeDecl>, Error>(
                Some(item_types(items)->Ok_0[i]),
            ),
        forall|i: int|
            0 <= i < items.len() ==> (#[trigger] items[i] matches ItemView::Type(t) ==> item_types(
                items,
            )->Ok_0[i] == t),
        forall|i: int|
            0 <= i < items.len() ==> (#[trigger] items[i] matches ItemView::Verbatim(ts)
                ==> item_types(items)->Ok_0[i].attrs == leading_attrs(ts)->Some_0),
    decreases items.len(),
{
    if items.len() > 0 {
        let prev = items.drop_last();
        assert forall|i: int| 0 <= i < prev.len() implies (#[trigger] item_type(prev[i])) is Ok
            && item_type(prev[i])->Ok_0 is Some by {
            assert(prev[i] == items[i]);
        }
        law_all_type_items_kept(prev);
        assert(item_type(items[items.len() - 1]) is Ok);
        assert forall|i: int| 0 <= i < items.len() implies item_type(#[trigger] items[i]) == Ok::<
            Option<TypeDecl>,
            Error,
        >(Some(item_types(items)->Ok_0[i])) by {
            if i < prev.len() {
                assert(prev[i] == items[i]);
            }
        }
        assert forall|i: int| 0 <= i < items.len() implies (#[trigger] items[i] matches ItemView::Verbatim(ts)
            ==> item_types(items)->Ok_0[i].attrs == leading_attrs(ts)->Some_0) by {
            assert(item_type(items[i]) == Ok::<Option<TypeDecl>, Error>(
                Some(item_types(items)->Ok_0[i]),
            ));
        }
    }
}

/// An item that is neither kind of type declaration, wherever it stands among the others,
/// changes nothing in what is extracted.
pub proof fn law_other_item_dropped(a: Seq<ItemView>, x: Seq<Token>, b: Seq<ItemView>)
    ensures
        item_types(a + seq![ItemView::Other(x)] + b) == item_types(a + b),
    decreases b.len(),
{
    let ax = a + seq![ItemView::Other(x)];
    if b.len() == 0 {
        assert(ax + b =~= ax);
        assert(a + b =~= a);
        assert(ax.drop_last() =~= a);
    } else {
        law_other_item_dropped(a, x, b.drop_last());
        assert((ax + b).drop_last() =~= ax + b.drop_last());
        assert((a + b).drop_last() =~= a + b.drop_last());
        assert((ax + b).last() == b.last());
        assert((a + b).last() == b.last());
    }
}

/// In a block read from a token run, the attributes written before `unsafe extern` come
/// first, in their order, and the block's own attributes after them, in theirs.
pub proof fn law_leading_attrs_first(s: Seq<Token>)
    requires
        verbatim_mod(s) is Ok,
        verbatim_mod(s)->Ok_0 is Some,
    ensures
        ({
            let m = verbatim_mod(s)->Ok_0->Some_0;
            let n = leading_attrs(s)->Some_0.len() as int;
            let own = syn_foreign_mod(s.skip(outer_attrs_len(s) as int).skip(1))->Some_0.attrs;
            &&& m.attrs.take(n) == leading_attrs(s)->Some_0
            &&& m.attrs.skip(n) == own
        }),
{
    let m = verbatim_mod(s)->Ok_0->Some_0;
    let n = leading_attrs(s)->Some_0.len() as int;
    let own = syn_foreign_mod(s.skip(outer_attrs_len(s) as int).skip(1))->Some_0.attrs;
    assert(m.attrs == leading_attrs(s)->Some_0 + own);
    assert(m.attrs.take(n) =~= leading_attrs(s)->Some_0);
    assert(m.attrs.skip(n) =~= own);
}

proof fn lemma_no_semi_suffix(s: Seq<Token>, k: int)
    requires
        0 <= k <= s.len(),
        forall|i: int| 0 <= i < s.len() ==> !is_punct(#[trigger] s[i], ';'),
    ensures
        first_semi(s.skip(k)) is None,
    decreases s.len() - k,
{
    if k < s.len() {
        lemma_no_semi_suffix(s, k + 1);
        assert(s.skip(k).skip(1) =~= s.skip(k + 1));
        assert(s.skip(k)[0] == s[k]);
    }
}

/// A type item whose tokens never reach a `;` is an error, never a declaration and never
/// "not a type item".
pub proof fn law_unterminated_type_fails(s: Seq<Token>)
    requires
        !attrs_fail(s),
        forall|i: int| 0 <= i < s.len() ==> !is_punct(#[trigger] s[i], ';'),
        ({
            let r1 = s.skip(outer_attrs_len(s) as int);
            let r2 = r1.skip(vis_len(r1) as int);
            vis_of(r1) is Some && r2.len() > 1 && is_keyword(r2[0], kw_type()) && is_name(r2[1])
        }),
    ensures
        verbatim_type(s) is Err,
        verbatim_type(s)->Err_0.kind == ErrorKind::MissingSemicolon,
{
    let na = outer_attrs_len(s) as int;
    let r1 = s.skip(na);
    let nv = vis_len(r1) as int;
    let r2 = r1.skip(nv);
    lemma_outer_attrs_len_bound(s);
    assert(r1.skip(nv).skip(2) =~= s.skip(na + nv + 2));
    lemma_no_semi_suffix(s, na + nv + 2);
}

} // verus!
