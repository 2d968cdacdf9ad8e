use crate::opt_sendsync::OptSync;
use crate::{
    backed, displays, erased_transferable_from, promises_shareable, promises_transferable, retag,
    run, Error, ErrorView, Retag, Tag, TagKind,
};
use std::fmt::Display;
use vstd::prelude::*;

verus! {

/// A value erased as transferable can be promised shareable exactly when its
/// type declares itself shareable; the answer depends on the type alone.
pub proof fn lemma_transferable_upgrade<E: Display + OptSync + Send>(err: &E, v: ErrorView)
    requires
        erased_transferable_from(err, v),
    ensures
        retag(TagKind::Transferable, v, Retag::MakeSync) is Some <==> E::IMPL_SYNC,
{
}

/// Dropping every promise and then asking for one the container had back
/// succeeds, with the same content: dropping leaves the capabilities alone.
pub proof fn lemma_drop_then_upgrade<M: Tag>(e: Error<M>)
    requires
        e.wf(),
    ensures
        promises_transferable(M::kind()) ==> run(
            M::kind(),
            e@,
            seq![Retag::DropCapabilities, Retag::MakeSend],
        ) == Some((TagKind::Transferable, e@)),
        promises_shareable(M::kind()) ==> run(
            M::kind(),
            e@,
            seq![Retag::DropCapabilities, Retag::MakeSync],
        ) == Some((TagKind::TransferableAndShareable, e@)),
{
    reveal_with_fuel(run, 3);
    let s = seq![Retag::DropCapabilities, Retag::MakeSend];
    let t = seq![Retag::DropCapabilities, Retag::MakeSync];
    assert(s.drop_first().drop_first() =~= Seq::<Retag>::empty());
    assert(t.drop_first().drop_first() =~= Seq::<Retag>::empty());
}

/// Any sequence of re-tags that succeeds ends with the content it started
/// with, under a tag that the content backs.
pub proof fn lemma_retags_keep_value(k: TagKind, v: ErrorView, ops: Seq<Retag>)
    requires
        backed(k, v),
    ensures
        run(k, v, ops) matches Some((k2, v2)) ==> v2 == v && backed(k2, v2),
    decreases ops.len(),
{
    if ops.len() > 0 {
        if let Some((k2, v2)) = retag(k, v, ops[0]) {
            lemma_retags_keep_value(k2, v2, ops.drop_first());
        }
    }
}

/// However a container is re-tagged, its text stays what formatting the
/// erased value produced.
pub proof fn lemma_display_survives<E: Display + ?Sized>(
    err: &E,
    k: TagKind,
    v: ErrorView,
    ops: Seq<Retag>,
)
    requires
        backed(k, v),
        displays(err, v.text),
    ensures
        run(k, v, ops) matches Some((_, v2)) ==> displays(err, v2.text),
{
    lemma_retags_keep_value(k, v, ops);
}

} // verus!
