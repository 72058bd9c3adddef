//! The per-channel configuration transforms.
//!
//! One JSON document per product channel controls whether that product
//! auto-updates. A session first sweeps over all documents enabling the
//! flag — recording the channels that already had it, which must never be
//! touched again — and later sweeps a second time removing the flag from
//! every channel that was not recorded. This module holds the decision
//! logic of both sweeps over what the session reads of each document; the
//! JSON carrier itself is handled in `jsonio`.

use vstd::prelude::*;

use crate::errors::UpdateError;

verus! {

/// The `autoUpdate` field of a channel document.
#[derive(Debug, Clone, Copy, PartialEq, Eq, Structural)]
pub enum AutoUpdateField {
    /// The key is absent: automatic updates are off.
    Absent,
    /// The key holds `true`: automatic updates are on.
    Enabled,
    /// The key holds some other value; the protocol expects the key to be
    /// simply absent when updates are off, so this violates the invariant.
    OtherValue,
}

/// What the update session reads of one channel configuration document.
/// Everything else in the document is carried through untouched by the
/// JSON layer.
#[derive(Debug, Clone, Copy, PartialEq, Eq, Structural)]
pub struct ChannelDoc {
    /// The document has a top-level `channel` field.
    pub channel_present: bool,
    /// That field's value is an object.
    pub channel_is_object: bool,
    /// The `autoUpdate` field of that object.
    pub auto_update: AutoUpdateField,
}

/// A document that can exist at all: only an object-valued `channel` field
/// can hold an `autoUpdate` key.
pub open spec fn channel_doc_wf(d: ChannelDoc) -> bool {
    &&& d.channel_is_object ==> d.channel_present
    &&& !d.channel_is_object ==> d.auto_update is Absent
}

/// The enable transform of one document: what the document becomes, and
/// whether the channel must be skipped on revert because it was already
/// auto-updating.
pub open spec fn enable_doc_spec(d: ChannelDoc) -> Result<(ChannelDoc, bool), UpdateError> {
    if !d.channel_is_object {
        Err(UpdateError::InvalidChannel)
    } else {
        match d.auto_update {
            AutoUpdateField::Enabled => Ok((d, true)),
            AutoUpdateField::OtherValue => Err(UpdateError::InvalidChannel),
            AutoUpdateField::Absent => Ok(
                ((ChannelDoc { auto_update: AutoUpdateField::Enabled, ..d }), false),
            ),
        }
    }
}

/// The enable transform where it succeeds.
pub open spec fn enable_doc_ok(d: ChannelDoc) -> (ChannelDoc, bool)
    recommends
        enable_doc_spec(d) is Ok,
{
    enable_doc_spec(d)->Ok_0
}

/// Applies the enable transform to one document.
pub fn enable_channel_doc(d: ChannelDoc) -> (r: Result<(ChannelDoc, bool), UpdateError>)
    ensures
        r == enable_doc_spec(d),
{
    if !d.channel_is_object {
        Err(UpdateError::InvalidChannel)
    } else {
        match d.auto_update {
            AutoUpdateField::Enabled => Ok((d, true)),
            AutoUpdateField::OtherValue => Err(UpdateError::InvalidChannel),
            AutoUpdateField::Absent => Ok(
                (ChannelDoc { auto_update: AutoUpdateField::Enabled, ..d }, false),
            ),
        }
    }
}

/// The revert transform of one document: skipped channels are left alone,
/// otherwise the `autoUpdate` key is removed; a document without an
/// object-valued `channel` field violates the schema.
pub open spec fn revert_doc_spec(d: ChannelDoc, skipped: bool) -> Result<ChannelDoc, UpdateError> {
    if !d.channel_present {
        Err(UpdateError::InvalidChannel)
    } else if skipped {
        Ok(d)
    } else if d.channel_is_object {
        Ok(ChannelDoc { auto_update: AutoUpdateField::Absent, ..d })
    } else {
        Err(UpdateError::InvalidChannel)
    }
}

/// The revert transform where it succeeds.
pub open spec fn revert_doc_ok(d: ChannelDoc, skipped: bool) -> ChannelDoc
    recommends
        revert_doc_spec(d, skipped) is Ok,
{
    revert_doc_spec(d, skipped)->Ok_0
}

/// Applies the revert transform to one document.
pub fn revert_channel_doc(d: ChannelDoc, skipped: bool) -> (r: Result<ChannelDoc, UpdateError>)
    ensures
        r == revert_doc_spec(d, skipped),
{
    if !d.channel_present {
        Err(UpdateError::InvalidChannel)
    } else if skipped {
        Ok(d)
    } else if d.channel_is_object {
        Ok(ChannelDoc { auto_update: AutoUpdateField::Absent, ..d })
    } else {
        Err(UpdateError::InvalidChannel)
    }
}

/// The views of a list of paths.
pub open spec fn path_views(paths: Seq<String>) -> Seq<Seq<char>> {
    paths.map_values(|s: String| s@)
}

/// The enable sweep succeeds on every document.
pub open spec fn enable_sweep_ok(docs: Seq<(String, ChannelDoc)>) -> bool {
    forall|i: int| 0 <= i < docs.len() ==> enable_doc_spec((#[trigger] docs[i]).1) is Ok
}

/// The paths of the channels that the enable sweep records as skipped:
/// those already auto-updating.
pub open spec fn skipped_paths(docs: Seq<(String, ChannelDoc)>) -> Seq<Seq<char>>
    decreases docs.len(),
{
    if docs.len() == 0 {
        Seq::empty()
    } else if docs[0].1.auto_update is Enabled {
        seq![docs[0].0@] + skipped_paths(docs.drop_first())
    } else {
        skipped_paths(docs.drop_first())
    }
}

proof fn lemma_skipped_paths_push(docs: Seq<(String, ChannelDoc)>, d: (String, ChannelDoc))
    ensures
        skipped_paths(docs.push(d)) == skipped_paths(docs) + (if d.1.auto_update is Enabled {
            seq![d.0@]
        } else {
            Seq::<Seq<char>>::empty()
        }),
    decreases docs.len(),
{
    let whole = docs.push(d);
    if docs.len() == 0 {
        assert(whole.len() == 1);
        assert(whole[0] == d);
        assert(whole.drop_first().len() == 0);
        assert(skipped_paths(whole.drop_first()) == Seq::<Seq<char>>::empty());
        assert(skipped_paths(docs) == Seq::<Seq<char>>::empty());
        if d.1.auto_update is Enabled {
            assert(skipped_paths(whole) == seq![d.0@] + Seq::<Seq<char>>::empty());
            assert(skipped_paths(whole) =~= skipped_paths(docs) + seq![d.0@]);
        } else {
            assert(skipped_paths(whole) == Seq::<Seq<char>>::empty());
            assert(skipped_paths(whole) =~= skipped_paths(docs) + Seq::<Seq<char>>::empty());
        }
    } else {
        assert(whole[0] == docs[0]);
        assert(whole.drop_first() =~= docs.drop_first().push(d));
        lemma_skipped_paths_push(docs.drop_first(), d);
        if docs[0].1.auto_update is Enabled {
            assert(skipped_paths(whole) == seq![docs[0].0@] + skipped_paths(
                docs.drop_first().push(d),
            ));
            assert(seq![docs[0].0@] + (skipped_paths(docs.drop_first()) + (
            if d.1.auto_update is Enabled {
                seq![d.0@]
            } else {
                Seq::<Seq<char>>::empty()
            })) =~= (seq![docs[0].0@] + skipped_paths(docs.drop_first())) + (
            if d.1.auto_update is Enabled {
                seq![d.0@]
            } else {
                Seq::<Seq<char>>::empty()
            }));
        } else {
            assert(skipped_paths(whole) == skipped_paths(docs.drop_first().push(d)));
        }
    }
}

/// Membership in the skip set: a path is recorded exactly when some channel
/// with that path was already auto-updating.
pub proof fn lemma_skipped_paths_contains(docs: Seq<(String, ChannelDoc)>, p: Seq<char>)
    ensures
        skipped_paths(docs).contains(p) <==> exists|i: int|
            0 <= i < docs.len() && (#[trigger] docs[i]).0@ == p && docs[i].1.auto_update
                is Enabled,
    decreases docs.len(),
{
    if docs.len() == 0 {
    } else {
        lemma_skipped_paths_contains(docs.drop_first(), p);
        let rest = skipped_paths(docs.drop_first());
        if docs[0].1.auto_update is Enabled {
            let whole = seq![docs[0].0@] + rest;
            assert(skipped_paths(docs) == whole);
            assert forall|j: int| 0 <= j < rest.len() implies whole[j + 1] == rest[j] by {}
            if whole.contains(p) {
                let k = choose|k: int| 0 <= k < whole.len() && whole[k] == p;
                if k == 0 {
                    assert(docs[0].0@ == p);
                } else {
                    assert(rest[k - 1] == p);
                    assert(rest.contains(p));
                    let i = choose|i: int|
                        0 <= i < docs.drop_first().len() && docs.drop_first()[i].0@ == p
                            && docs.drop_first()[i].1.auto_update is Enabled;
                    assert(docs[i + 1] == docs.drop_first()[i]);
                }
            }
            if exists|i: int|
                0 <= i < docs.len() && (#[trigger] docs[i]).0@ == p && docs[i].1.auto_update
                    is Enabled {
                let i = choose|i: int|
                    0 <= i < docs.len() && (#[trigger] docs[i]).0@ == p && docs[i].1.auto_update
                        is Enabled;
                if i == 0 {
                    assert(whole[0] == p);
                } else {
                    assert(docs.drop_first()[i - 1] == docs[i]);
                    assert(rest.contains(p));
                    let k = choose|k: int| 0 <= k < rest.len() && rest[k] == p;
                    assert(whole[k + 1] == p);
                }
            }
        } else {
            assert(skipped_paths(docs) == rest);
            if rest.contains(p) {
                let i = choose|i: int|
                    0 <= i < docs.drop_first().len() && docs.drop_first()[i].0@ == p
                        && docs.drop_first()[i].1.auto_update is Enabled;
                assert(docs[i + 1] == docs.drop_first()[i]);
            }
            if exists|i: int|
                0 <= i < docs.len() && (#[trigger] docs[i]).0@ == p && docs[i].1.auto_update
                    is Enabled {
                let i = choose|i: int|
                    0 <= i < docs.len() && (#[trigger] docs[i]).0@ == p && docs[i].1.auto_update
                        is Enabled;
                assert(i != 0);
                assert(docs.drop_first()[i - 1] == docs[i]);
            }
        }
    }
}

/// Whether `p` is one of the recorded paths; the membership test of the
/// revert sweep, shared with the shell that reverts file by file.
pub fn contains_path(paths: &Vec<String>, p: &String) -> (b: bool)
    ensures
        b == path_views(paths@).contains(p@),
{
    let mut i: usize = 0;
    while i < paths.len()
        invariant
            i <= paths@.len(),
            forall|j: int| 0 <= j < i ==> path_views(paths@)[j] != p@,
        decreases paths@.len() - i,
    {
        if p.eq(&paths[i]) {
            proof {
                assert(path_views(paths@)[i as int] == paths@[i as int]@);
            }
            return true;
        }
        proof {
            assert(path_views(paths@)[i as int] == paths@[i as int]@);
        }
        i = i + 1;
    }
    proof {
        if path_views(paths@).contains(p@) {
            let k = choose|k: int|
                0 <= k < path_views(paths@).len() && path_views(paths@)[k] == p@;
        }
    }
    false
}

/// Sweeps over every channel document enabling automatic updates: each
/// already-enabled channel is recorded by path and left alone, each absent
/// flag is set, and any schema violation aborts the sweep. On success,
/// returns the transformed documents and the recorded skip set.
pub fn change_config(channels: &Vec<(String, ChannelDoc)>) -> (r: Result<
    (Vec<(String, ChannelDoc)>, Vec<String>),
    UpdateError,
>)
    ensures
        r is Ok <==> enable_sweep_ok(channels@),
        (r matches Err(e) ==> e == UpdateError::InvalidChannel),
        (r matches Ok(p) ==> {
            &&& p.0@.len() == channels@.len()
            &&& forall|i: int|
                0 <= i < channels@.len() ==> (#[trigger] p.0@[i]).0@ == channels@[i].0@
                    && p.0@[i].1 == enable_doc_ok(channels@[i].1).0
            &&& path_views(p.1@) == skipped_paths(channels@)
        }),
{
    let mut out: Vec<(String, ChannelDoc)> = Vec::new();
    let mut skipped: Vec<String> = Vec::new();
    let mut i: usize = 0;
    proof {
        assert(channels@.take(0) =~= Seq::<(String, ChannelDoc)>::empty());
        assert(path_views(skipped@) =~= skipped_paths(channels@.take(0)));
    }
    while i < channels.len()
        invariant
            i <= channels@.len(),
            out@.len() == i,
            forall|j: int| 0 <= j < i ==> enable_doc_spec((#[trigger] channels@[j]).1) is Ok,
            forall|j: int|
                0 <= j < i ==> (#[trigger] out@[j]).0@ == channels@[j].0@ && out@[j].1
                    == enable_doc_ok(channels@[j].1).0,
            path_views(skipped@) == skipped_paths(channels@.take(i as int)),
        decreases channels@.len() - i,
    {
        let (path, doc) = &channels[i];
        match enable_channel_doc(*doc) {
            Err(e) => {
                return Err(e);
            },
            Ok((newdoc, skip)) => {
                proof {
                    assert(channels@.take(i + 1) =~= channels@.take(i as int).push(
                        channels@[i as int],
                    ));
                    lemma_skipped_paths_push(channels@.take(i as int), channels@[i as int]);
                }
                if skip {
                    skipped.push(path.clone());
                    proof {
                        assert(path_views(skipped@) =~= skipped_paths(channels@.take(i + 1)));
                    }
                } else {
                    proof {
                        assert(path_views(skipped@) =~= skipped_paths(channels@.take(i + 1)));
                    }
                }
                out.push((path.clone(), newdoc));
            },
        }
        i = i + 1;
    }
    proof {
        assert(channels@.take(channels@.len() as int) =~= channels@);
    }
    Ok((out, skipped))
}

/// The revert sweep succeeds on every document: each is either skipped or
/// carries an object-valued `channel` field.
pub open spec fn revert_sweep_ok(docs: Seq<(String, ChannelDoc)>, skipped: Seq<Seq<char>>) -> bool {
    forall|i: int|
        0 <= i < docs.len() ==> revert_doc_spec(
            (#[trigger] docs[i]).1,
            skipped.contains(docs[i].0@),
        ) is Ok
}

/// Sweeps over every channel document reverting automatic updates: each
/// channel whose path is in the skip set is left alone, every other one has
/// the `autoUpdate` key removed; a document without an object-valued
/// `channel` field aborts the sweep.
pub fn reset_config(channels: &Vec<(String, ChannelDoc)>, skipped: &Vec<String>) -> (r: Result<
    Vec<(String, ChannelDoc)>,
    UpdateError,
>)
    ensures
        r is Ok <==> revert_sweep_ok(channels@, path_views(skipped@)),
        (r matches Err(e) ==> e == UpdateError::InvalidChannel),
        (r matches Ok(out) ==> {
            &&& out@.len() == channels@.len()
            &&& forall|i: int|
                0 <= i < channels@.len() ==> (#[trigger] out@[i]).0@ == channels@[i].0@
                    && out@[i].1 == revert_doc_ok(
                    channels@[i].1,
                    path_views(skipped@).contains(channels@[i].0@),
                )
        }),
{
    let mut out: Vec<(String, ChannelDoc)> = Vec::new();
    let mut i: usize = 0;
    while i < channels.len()
        invariant
            i <= channels@.len(),
            out@.len() == i,
            forall|j: int|
                0 <= j < i ==> revert_doc_spec(
                    (#[trigger] channels@[j]).1,
                    path_views(skipped@).contains(channels@[j].0@),
                ) is Ok,
            forall|j: int|
                0 <= j < i ==> (#[trigger] out@[j]).0@ == channels@[j].0@ && out@[j].1
                    == revert_doc_ok(
                    channels@[j].1,
                    path_views(skipped@).contains(channels@[j].0@),
                ),
        decreases channels@.len() - i,
    {
        let (path, doc) = &channels[i];
        let is_skipped = contains_path(skipped, path);
        match revert_channel_doc(*doc, is_skipped) {
            Err(e) => {
                return Err(e);
            },
            Ok(newdoc) => {
                out.push((path.clone(), newdoc));
            },
        }
        i = i + 1;
    }
    Ok(out)
}

/// Idempotent no-op: when every channel already has `autoUpdate: true`, the
/// enable sweep records every path and changes no document, and the revert
/// sweep with that skip set changes none either.
pub proof fn lemma_idempotent_noop(docs: Seq<(String, ChannelDoc)>)
    requires
        forall|i: int|
            0 <= i < docs.len() ==> (#[trigger] docs[i]).1.channel_is_object && docs[i].1.channel_present
                && docs[i].1.auto_update is Enabled,
    ensures
        enable_sweep_ok(docs),
        forall|i: int|
            0 <= i < docs.len() ==> enable_doc_ok((#[trigger] docs[i]).1) == (docs[i].1, true),
        forall|i: int|
            0 <= i < docs.len() ==> skipped_paths(docs).contains((#[trigger] docs[i]).0@),
        forall|i: int|
            0 <= i < docs.len() ==> revert_doc_spec(
                enable_doc_ok((#[trigger] docs[i]).1).0,
                skipped_paths(docs).contains(docs[i].0@),
            ) == Ok::<ChannelDoc, UpdateError>(docs[i].1),
{
    assert forall|i: int| 0 <= i < docs.len() implies skipped_paths(docs).contains(
        (#[trigger] docs[i]).0@,
    ) by {
        lemma_skipped_paths_contains(docs, docs[i].0@);
    }
}

/// Revert correctness: over channels with distinct paths, each valid for the
/// enable sweep, reverting what enabling produced — respecting the recorded
/// skip set — restores every document exactly, whether its flag was present
/// before the session or not.
pub proof fn lemma_revert_restores(docs: Seq<(String, ChannelDoc)>)
    requires
        forall|i: int|
            0 <= i < docs.len() ==> channel_doc_wf((#[trigger] docs[i]).1)
                && docs[i].1.channel_is_object && !(docs[i].1.auto_update is OtherValue),
        forall|i: int, j: int|
            0 <= i < docs.len() && 0 <= j < docs.len() && i != j ==> (#[trigger] docs[i]).0@ != (
            #[trigger] docs[j]).0@,
    ensures
        enable_sweep_ok(docs),
        forall|i: int|
            0 <= i < docs.len() ==> revert_doc_spec(
                enable_doc_ok((#[trigger] docs[i]).1).0,
                skipped_paths(docs).contains(docs[i].0@),
            ) == Ok::<ChannelDoc, UpdateError>(docs[i].1),
{
    assert forall|i: int| 0 <= i < docs.len() implies revert_doc_spec(
        enable_doc_ok((#[trigger] docs[i]).1).0,
        skipped_paths(docs).contains(docs[i].0@),
    ) == Ok::<ChannelDoc, UpdateError>(docs[i].1) by {
        lemma_skipped_paths_contains(docs, docs[i].0@);
        if docs[i].1.auto_update is Enabled {
            assert(skipped_paths(docs).contains(docs[i].0@));
        } else {
            assert(!skipped_paths(docs).contains(docs[i].0@)) by {
                if skipped_paths(docs).contains(docs[i].0@) {
                    let j = choose|j: int|
                        0 <= j < docs.len() && (#[trigger] docs[j]).0@ == docs[i].0@
                            && docs[j].1.auto_update is Enabled;
                    assert(j == i);
                }
            }
        }
    }
}

} // verus!
