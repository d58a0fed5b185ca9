use vstd::prelude::*;
use crate::token::{kw_self, Anchor, Attr, Error, ErrorKind, Token};

verus! {

/// A type expression, kept as the tokens it was written with.
#[derive(Debug)]
pub struct Type {
    pub tokens: Vec<Token>,
}

/// A binding pattern `#[attrs] ref mut ident @ subpat`.
#[derive(Debug)]
pub struct PatIdent {
    pub attrs: Vec<Attr>,
    pub by_ref: bool,
    pub mutability: bool,
    pub ident: String,
    pub subpat: Option<Vec<Token>>,
}

/// The pattern of a parameter.
#[derive(Debug)]
pub enum Pat {
    Ident(PatIdent),
    /// Any other pattern (a reference, a tuple, a literal), kept as tokens.
    Other(Vec<Token>),
}

/// A typed parameter `#[attrs] pat: ty`.
#[derive(Debug)]
pub struct PatType {
    pub attrs: Vec<Attr>,
    pub pat: Pat,
    pub ty: Type,
}

/// The shorthand receiver `self`, `mut self`, `&self` or `&mut self`, written without a type.
#[derive(Debug)]
pub struct Receiver {
    pub attrs: Vec<Attr>,
    pub reference: bool,
    pub mutability: bool,
}

/// One parameter of a function signature.
#[derive(Debug)]
pub enum FnArg {
    Receiver(Receiver),
    Typed(PatType),
}

/// A function signature: its name, its parameters in order and its return type.
#[derive(Debug)]
pub struct Signature {
    pub ident: String,
    pub inputs: Vec<FnArg>,
    pub output: Option<Type>,
}

/// The receiver of a foreign function: the identifier `self` and the type it is bound to.
#[derive(Debug)]
pub struct ForeignFnSelf {
    pub ident: String,
    pub typ: Type,
}

/// A plain binding named `self`, with no attribute, `ref`, `mut` or sub-pattern.
pub open spec fn is_plain_self(p: Pat) -> bool {
    p matches Pat::Ident(pi) && pi.ident@ == kw_self() && pi.attrs@.len() == 0 && !pi.by_ref
        && !pi.mutability && pi.subpat is None
}

/// The receiver binding that a signature's first parameter gives: its identifier and its
/// type, or the error, anchored on the signature when there is no parameter at all.
pub open spec fn receiver_of(sig: Signature) -> Result<(Seq<char>, Type), Error> {
    if sig.inputs@.len() == 0 {
        Err(Error { kind: ErrorKind::ExpectedSelfReceiver, anchor: Anchor::Signature })
    } else {
        match sig.inputs@[0] {
            FnArg::Typed(pt) => if pt.attrs@.len() > 0 {
                Err(Error { kind: ErrorKind::ReceiverAttributes, anchor: Anchor::FirstArg })
            } else if is_plain_self(pt.pat) {
                Ok((pt.pat->Ident_0.ident@, pt.ty))
            } else {
                Err(Error { kind: ErrorKind::ExpectedSelfReceiver, anchor: Anchor::FirstArg })
            },
            FnArg::Receiver(_) => Err(
                Error { kind: ErrorKind::ExpectedSelfReceiver, anchor: Anchor::FirstArg },
            ),
        }
    }
}

/// Checks that the first parameter of a signature is `self: Type` and returns the binding.
/// Only the first parameter is looked at.
pub fn self_type_from_foreign_fn(signature: Signature) -> (r: Result<ForeignFnSelf, Error>)
    ensures
        receiver_of(signature) == match r {
            Ok(f) => Ok::<(Seq<char>, Type), Error>((f.ident@, f.typ)),
            Err(e) => Err::<(Seq<char>, Type), Error>(e),
        },
{
    let mut inputs = signature.inputs;
    if inputs.len() == 0 {
        return Err(Error { kind: ErrorKind::ExpectedSelfReceiver, anchor: Anchor::Signature });
    }
    let first = inputs.remove(0);
    let not_self = Error { kind: ErrorKind::ExpectedSelfReceiver, anchor: Anchor::FirstArg };
    match first {
        FnArg::Typed(pt) => {
            if pt.attrs.len() > 0 {
                return Err(Error { kind: ErrorKind::ReceiverAttributes, anchor: Anchor::FirstArg });
            }
            match pt.pat {
                Pat::Ident(pi) => {
                    proof {
                        reveal_strlit("self");
                        assert("self"@ =~= kw_self());
                    }
                    if pi.ident == "self".to_owned() && pi.attrs.len() == 0 && !pi.by_ref
                        && !pi.mutability && pi.subpat.is_none() {
                        Ok(ForeignFnSelf { ident: pi.ident, typ: pt.ty })
                    } else {
                        Err(not_self)
                    }
                },
                Pat::Other(_) => Err(not_self),
            }
        },
        FnArg::Receiver(_) => Err(not_self),
    }
}

} // verus!
