//! An erased error value tagged, at the type level, with the thread-safety
//! capabilities it is known to have.
//!
//! The capabilities of the concrete value are recorded once, when it is
//! erased. The tag parameter of `Error` states what the container promises;
//! it moves only when the recorded capabilities justify the move.
mod laws;
mod opt_sendsync;

pub use laws::{
    lemma_display_survives, lemma_drop_then_upgrade, lemma_retags_keep_value,
    lemma_transferable_upgrade,
};
pub use opt_sendsync::{OptSend, OptSync};
use std::fmt::Display;
use std::marker::PhantomData;
use vstd::prelude::*;
use vstd::string::to_string_from_display_ensures;

verus! {

/// Tag: transferable and shareable.
pub struct SendSync;

/// Tag: no capability is promised.
pub struct NoSendSync;

/// Tag: transferable; shareability is not claimed.
pub struct NoSync;

/// What a tag promises, as a value.
pub enum TagKind {
    Untagged,
    Transferable,
    TransferableAndShareable,
}

/// Ties each tag type to the promise it stands for.
pub trait Tag {
    spec fn kind() -> TagKind;
}

impl Tag for NoSendSync {
    open spec fn kind() -> TagKind {
        TagKind::Untagged
    }
}

impl Tag for NoSync {
    open spec fn kind() -> TagKind {
        TagKind::Transferable
    }
}

impl Tag for SendSync {
    open spec fn kind() -> TagKind {
        TagKind::TransferableAndShareable
    }
}

pub open spec fn promises_transferable(k: TagKind) -> bool {
    k != TagKind::Untagged
}

pub open spec fn promises_shareable(k: TagKind) -> bool {
    k == TagKind::TransferableAndShareable
}

/// The abstract content of a container: the erased value (its text) and the
/// capability pair recorded at erasure.
pub struct ErrorView {
    pub text: Seq<char>,
    pub transferable: bool,
    pub shareable: bool,
}

/// A container with tag `k` holding `v` keeps its promise: every capability
/// the tag claims was recorded for the value.
pub open spec fn backed(k: TagKind, v: ErrorView) -> bool {
    &&& promises_transferable(k) ==> v.transferable
    &&& promises_shareable(k) ==> v.shareable
}

/// The operations that move a container from one tag to another.
pub enum Retag {
    /// Give up every promise (always allowed).
    DropCapabilities,
    /// From `Untagged` to `Transferable`, checked.
    MakeSend,
    /// From `Untagged` or `Transferable` to `TransferableAndShareable`, checked.
    MakeSync,
}

/// The outcome of applying `op` to a container with tag `k` and content `v`:
/// the new tag and content, or `None` where the check fails or the tag offers
/// no such operation.
pub open spec fn retag(k: TagKind, v: ErrorView, op: Retag) -> Option<(TagKind, ErrorView)> {
    match op {
        Retag::DropCapabilities => Some((TagKind::Untagged, v)),
        Retag::MakeSend => {
            if k == TagKind::Untagged && v.transferable {
                Some((TagKind::Transferable, v))
            } else {
                None
            }
        },
        Retag::MakeSync => {
            if (k == TagKind::Untagged && v.transferable && v.shareable) || (k
                == TagKind::Transferable && v.shareable) {
                Some((TagKind::TransferableAndShareable, v))
            } else {
                None
            }
        },
    }
}

/// Applies `ops` in order, stopping with `None` at the first that fails.
pub open spec fn run(k: TagKind, v: ErrorView, ops: Seq<Retag>) -> Option<(TagKind, ErrorView)>
    decreases ops.len(),
{
    if ops.len() == 0 {
        Some((k, v))
    } else {
        match retag(k, v, ops[0]) {
            Some((k2, v2)) => run(k2, v2, ops.drop_first()),
            None => None,
        }
    }
}

/// `text` is what formatting `err` produced.
pub open spec fn displays<E: Display + ?Sized>(err: &E, text: Seq<char>) -> bool {
    exists|s: String| s@ == text && #[trigger] to_string_from_display_ensures::<E>(err, s)
}

/// `v` is the content of a container made by erasing `err` with no static
/// knowledge: both capabilities as its type declares them.
pub open spec fn erased_from<E: Display + OptSend + OptSync>(err: &E, v: ErrorView) -> bool {
    &&& displays(err, v.text)
    &&& v.transferable == E::IMPL_SEND
    &&& v.shareable == E::IMPL_SYNC
}

/// `v` is the content of a container made by erasing `err`, a value statically
/// known to be transferable.
pub open spec fn erased_transferable_from<E: Display + OptSync>(err: &E, v: ErrorView) -> bool {
    &&& displays(err, v.text)
    &&& v.transferable
    &&& v.shareable == E::IMPL_SYNC
}

/// `v` is the content of a container made by erasing `err`, a value statically
/// known to be transferable and shareable.
pub open spec fn erased_shared_from<E: Display>(err: &E, v: ErrorView) -> bool {
    &&& displays(err, v.text)
    &&& v.transferable
    &&& v.shareable
}

/// An erased error, with the tag `M` stating what it promises.
pub struct Error<M = NoSendSync> {
    real: String,
    impl_send: bool,
    impl_sync: bool,
    _tag: PhantomData<M>,
}

impl<M> View for Error<M> {
    type V = ErrorView;

    closed spec fn view(&self) -> ErrorView {
        ErrorView { text: self.real@, transferable: self.impl_send, shareable: self.impl_sync }
    }
}

impl<M: Tag> Error<M> {
    /// The tag's promise holds of the recorded capabilities.
    pub open spec fn wf(&self) -> bool {
        backed(M::kind(), self@)
    }
}

impl<M> Error<M> {
    /// Relabels the tag without looking at the record: the single place where
    /// a tag is chosen for existing content. Callers establish beforehand that
    /// the recorded capabilities back the new tag.
    fn to_tag<T: Tag>(self) -> (r: Error<T>)
        requires
            backed(T::kind(), self@),
        ensures
            r@ == self@,
            r.wf(),
    {
        Error { real: self.real, impl_send: self.impl_send, impl_sync: self.impl_sync, _tag: PhantomData }
    }

    /// Drops every promise; the recorded capabilities stay as they are.
    pub fn make_no_send(self) -> (r: Error<NoSendSync>)
        ensures
            r@ == self@,
            retag(TagKind::Untagged, self@, Retag::DropCapabilities) == Some((TagKind::Untagged, r@)),
            r.wf(),
    {
        // Promising nothing is always sound.
        self.to_tag::<NoSendSync>()
    }

    /// Ends the container's life, handing back the erased value.
    pub fn into_inner(self) -> (r: String)
        ensures
            r@ == self@.text,
    {
        self.real
    }

    /// The erased value's text.
    pub fn display(&self) -> (r: String)
        ensures
            r@ == self@.text,
    {
        self.real.clone()
    }
}

impl Error<NoSendSync> {
    /// Wraps an already erased value, claiming no capability for it.
    pub fn new(e: String) -> (r: Self)
        ensures
            r@ == (ErrorView { text: e@, transferable: false, shareable: false }),
            r.wf(),
    {
        Error { real: e, impl_send: false, impl_sync: false, _tag: PhantomData }
    }

    /// Erases `err`, recording the capabilities its type declares.
    pub fn from<E: Display + OptSend + OptSync>(err: E) -> (r: Self)
        ensures
            erased_from(&err, r@),
            r.wf(),
    {
        let text = err.to_string();
        Error { real: text, impl_send: E::IMPL_SEND, impl_sync: E::IMPL_SYNC, _tag: PhantomData }
    }

    /// Promises transferability, where it was recorded.
    pub fn make_send(self) -> (r: Option<Error<NoSync>>)
        ensures
            r is Some <==> self@.transferable,
            match r {
                Some(x) => retag(TagKind::Untagged, self@, Retag::MakeSend) == Some(
                    (TagKind::Transferable, x@),
                ) && x.wf(),
                None => retag(TagKind::Untagged, self@, Retag::MakeSend) is None,
            },
    {
        if self.impl_send {
            // The value was recorded transferable, which is all `NoSync` claims.
            Some(self.to_tag())
        } else {
            None
        }
    }

    /// Promises both capabilities, where both were recorded.
    pub fn make_sync(self) -> (r: Option<Error<SendSync>>)
        ensures
            r is Some <==> self@.transferable && self@.shareable,
            match r {
                Some(x) => retag(TagKind::Untagged, self@, Retag::MakeSync) == Some(
                    (TagKind::TransferableAndShareable, x@),
                ) && x.wf(),
                None => retag(TagKind::Untagged, self@, Retag::MakeSync) is None,
            },
    {
        if self.impl_send && self.impl_sync {
            // Both capabilities were recorded, which is what `SendSync` claims.
            Some(self.to_tag())
        } else {
            None
        }
    }
}

impl Error<NoSync> {
    /// Wraps an already erased transferable value.
    pub fn new(e: String) -> (r: Self)
        ensures
            r@ == (ErrorView { text: e@, transferable: true, shareable: false }),
            r.wf(),
    {
        Error { real: e, impl_send: true, impl_sync: false, _tag: PhantomData }
    }

    /// Erases a value whose type is transferable, recording whether it is
    /// also shareable.
    pub fn from<E: Display + OptSync + Send>(err: E) -> (r: Self)
        ensures
            erased_transferable_from(&err, r@),
            r.wf(),
    {
        let text = err.to_string();
        Error { real: text, impl_send: true, impl_sync: E::IMPL_SYNC, _tag: PhantomData }
    }

    /// Adds the shareability promise, where it was recorded.
    pub fn make_sync(self) -> (r: Option<Error<SendSync>>)
        requires
            self.wf(),
        ensures
            r is Some <==> self@.shareable,
            match r {
                Some(x) => retag(TagKind::Transferable, self@, Retag::MakeSync) == Some(
                    (TagKind::TransferableAndShareable, x@),
                ) && x.wf(),
                None => retag(TagKind::Transferable, self@, Retag::MakeSync) is None,
            },
    {
        if self.impl_sync {
            // Shareable was recorded, and the `NoSync` tag already stands for
            // a transferable value.
            Some(self.to_tag())
        } else {
            None
        }
    }
}

impl Error<SendSync> {
    /// Wraps an already erased transferable and shareable value.
    pub fn new(e: String) -> (r: Self)
        ensures
            r@ == (ErrorView { text: e@, transferable: true, shareable: true }),
            r.wf(),
    {
        Error { real: e, impl_send: true, impl_sync: true, _tag: PhantomData }
    }

    /// Erases a value whose type is transferable and shareable.
    pub fn from<E: Display + Send + Sync>(err: E) -> (r: Self)
        ensures
            erased_shared_from(&err, r@),
            r.wf(),
    {
        let text = err.to_string();
        Error { real: text, impl_send: true, impl_sync: true, _tag: PhantomData }
    }
}

} // verus!
