use vstd::prelude::*;

verus! {

/// Most deleted-message attachment sets kept at once.
pub const ATTACHMENT_CAPACITY: usize = 256;

/// One downloaded attachment: its file name and its bytes.
pub struct Image {
    pub name: String,
    pub body: Vec<u8>,
}

/// The attachments downloaded for one message.
pub struct ImagesData {
    pub id: u64,
    pub images: Vec<Image>,
}

/// Whether some entry of `s` belongs to message `id`.
pub open spec fn holds_id(s: Seq<ImagesData>, id: u64) -> bool {
    exists|i: int| 0 <= i < s.len() && (#[trigger] s[i]).id == id
}

/// The cache after storing `entry`: an entry without images is not kept;
/// otherwise it goes last, and a full cache first drops its oldest entry.
pub open spec fn stored(s: Seq<ImagesData>, entry: ImagesData) -> Seq<ImagesData> {
    if entry.images@.len() == 0 {
        s
    } else if s.len() >= ATTACHMENT_CAPACITY {
        s.drop_first().push(entry)
    } else {
        s.push(entry)
    }
}

/// The oldest entry of `s` that belongs to message `id`.
pub open spec fn first_with_id(s: Seq<ImagesData>, id: u64) -> Option<ImagesData>
    decreases s.len(),
{
    if s.len() == 0 {
        None
    } else if s[0].id == id {
        Some(s[0])
    } else {
        first_with_id(s.drop_first(), id)
    }
}

/// `s` without the entries of message `id`, the rest in their order.
pub open spec fn without_id(s: Seq<ImagesData>, id: u64) -> Seq<ImagesData>
    decreases s.len(),
{
    if s.len() == 0 {
        Seq::empty()
    } else if s[0].id == id {
        without_id(s.drop_first(), id)
    } else {
        seq![s[0]] + without_id(s.drop_first(), id)
    }
}

proof fn lemma_push_absent(s: Seq<ImagesData>, e: ImagesData)
    requires
        !holds_id(s, e.id),
    ensures
        first_with_id(s.push(e), e.id) == Some(e),
        without_id(s.push(e), e.id) == s,
    decreases s.len(),
{
    if s.len() == 0 {
        assert(s.push(e).drop_first() =~= Seq::<ImagesData>::empty());
        assert(without_id(Seq::<ImagesData>::empty(), e.id) =~= Seq::<ImagesData>::empty());
        assert(s =~= Seq::<ImagesData>::empty());
    } else {
        let t = s.drop_first();
        assert(s.push(e).drop_first() =~= t.push(e));
        assert(!holds_id(t, e.id)) by {
            if holds_id(t, e.id) {
                let i = choose|i: int| 0 <= i < t.len() && (#[trigger] t[i]).id == e.id;
                assert(s[i + 1] == t[i]);
            }
        }
        assert(s[0] == s.push(e)[0]);
        assert(s[0].id != e.id);
        lemma_push_absent(t, e);
        assert(without_id(s.push(e), e.id) == seq![s[0]] + without_id(t.push(e), e.id));
        assert(s =~= seq![s[0]] + t);
    }
}

proof fn lemma_without_id_absent(s: Seq<ImagesData>, id: u64)
    ensures
        !holds_id(without_id(s, id), id),
        first_with_id(without_id(s, id), id) is None,
    decreases s.len(),
{
    if s.len() > 0 {
        let t = s.drop_first();
        lemma_without_id_absent(t, id);
        if s[0].id != id {
            let w = seq![s[0]] + without_id(t, id);
            assert(w.drop_first() =~= without_id(t, id));
            if holds_id(w, id) {
                let i = choose|i: int| 0 <= i < w.len() && (#[trigger] w[i]).id == id;
                assert(w[i] == without_id(t, id)[i - 1]);
            }
        }
    }
}

proof fn lemma_without_id_other(s: Seq<ImagesData>, id: u64, other: u64)
    requires
        other != id,
    ensures
        first_with_id(without_id(s, id), other) == first_with_id(s, other),
    decreases s.len(),
{
    if s.len() > 0 {
        let t = s.drop_first();
        lemma_without_id_other(t, id, other);
        if s[0].id != id {
            let w = seq![s[0]] + without_id(t, id);
            assert(w.drop_first() =~= without_id(t, id));
        }
    }
}

/// Storing the images of a message that the cache does not hold yet, then
/// taking that message's images, hands back exactly what was stored and leaves
/// the cache as it was before the store (less the oldest entry, when the store
/// found the cache full).
pub proof fn law_store_then_take(s: Seq<ImagesData>, id: u64, images: Vec<Image>)
    requires
        !holds_id(s, id),
        images@.len() > 0,
    ensures
        first_with_id(stored(s, ImagesData { id, images }), id) == Some(ImagesData { id, images }),
        without_id(stored(s, ImagesData { id, images }), id) == (if s.len() >= ATTACHMENT_CAPACITY {
            s.drop_first()
        } else {
            s
        }),
{
    let e = ImagesData { id, images };
    if s.len() >= ATTACHMENT_CAPACITY {
        let t = s.drop_first();
        assert(!holds_id(t, id)) by {
            if holds_id(t, id) {
                let i = choose|i: int| 0 <= i < t.len() && (#[trigger] t[i]).id == id;
                assert(s[i + 1] == t[i]);
            }
        }
        lemma_push_absent(t, e);
    } else {
        lemma_push_absent(s, e);
    }
}

/// After the images of a message are taken, the cache holds none of that
/// message's entries, so taking them again yields nothing.
pub proof fn law_take_clears(s: Seq<ImagesData>, id: u64)
    ensures
        !holds_id(without_id(s, id), id),
        first_with_id(without_id(s, id), id) is None,
{
    lemma_without_id_absent(s, id);
}

/// Taking the images of one message does not change what taking another
/// message's images would hand back.
pub proof fn law_take_keeps_others(s: Seq<ImagesData>, id: u64, other: u64)
    requires
        other != id,
    ensures
        first_with_id(without_id(s, id), other) == first_with_id(s, other),
{
    lemma_without_id_other(s, id, other);
}

proof fn lemma_push_other(s: Seq<ImagesData>, e: ImagesData, id: u64)
    requires
        e.id != id,
    ensures
        first_with_id(s.push(e), id) == first_with_id(s, id),
    decreases s.len(),
{
    if s.len() == 0 {
        assert(s.push(e).drop_first() =~= Seq::<ImagesData>::empty());
        assert(first_with_id(s.push(e).drop_first(), id) is None);
    } else {
        let t = s.drop_first();
        assert(s.push(e).drop_first() =~= t.push(e));
        assert(s.push(e)[0] == s[0]);
        lemma_push_other(t, e, id);
    }
}

/// Storing another message's images keeps what taking message `id`'s images
/// would hand back, unless the store finds the cache full with an entry of
/// `id` oldest, which it then drops.
pub proof fn law_store_keeps_other(s: Seq<ImagesData>, other: u64, images: Vec<Image>, id: u64)
    requires
        other != id,
        !(images@.len() > 0 && s.len() >= ATTACHMENT_CAPACITY && s[0].id == id),
    ensures
        first_with_id(stored(s, ImagesData { id: other, images }), id) == first_with_id(s, id),
{
    let e = ImagesData { id: other, images };
    if images@.len() > 0 {
        if s.len() >= ATTACHMENT_CAPACITY {
            lemma_push_other(s.drop_first(), e, id);
        } else {
            lemma_push_other(s, e, id);
        }
    }
}

/// The cache after storing each of `entries` in turn, first to last.
pub open spec fn stored_all(s: Seq<ImagesData>, entries: Seq<ImagesData>) -> Seq<ImagesData>
    decreases entries.len(),
{
    if entries.len() == 0 {
        s
    } else {
        stored(stored_all(s, entries.drop_last()), entries.last())
    }
}

/// Whether storing `entries` in turn into `s` drops, at some store, an entry
/// of message `id` as the oldest of a full cache.
pub open spec fn evicts_id(s: Seq<ImagesData>, entries: Seq<ImagesData>, id: u64) -> bool {
    exists|k: int|
        0 <= k < entries.len() && #[trigger] entries[k].images@.len() > 0 && stored_all(s, entries.take(k)).len()
            >= ATTACHMENT_CAPACITY && stored_all(s, entries.take(k))[0].id == id
}

/// Storing any number of other messages' images keeps what taking message
/// `id`'s images would hand back, as long as none of those stores drops an
/// entry of `id` as the oldest of a full cache.
pub proof fn law_stores_keep_other(s: Seq<ImagesData>, entries: Seq<ImagesData>, id: u64)
    requires
        forall|k: int| 0 <= k < entries.len() ==> (#[trigger] entries[k]).id != id,
        !evicts_id(s, entries, id),
    ensures
        first_with_id(stored_all(s, entries), id) == first_with_id(s, id),
    decreases entries.len(),
{
    if entries.len() > 0 {
        let n = entries.len() - 1;
        let init = entries.drop_last();
        assert(entries.take(n) =~= init);
        assert(!evicts_id(s, init, id)) by {
            if evicts_id(s, init, id) {
                let k = choose|k: int|
                    0 <= k < init.len() && #[trigger] init[k].images@.len() > 0 && stored_all(
                        s,
                        init.take(k),
                    ).len() >= ATTACHMENT_CAPACITY && stored_all(s, init.take(k))[0].id == id;
                assert(init.take(k) =~= entries.take(k));
                assert(entries[k] == init[k]);
            }
        }
        assert forall|k: int| 0 <= k < init.len() implies (#[trigger] init[k]).id != id by {
            assert(init[k] == entries[k]);
        }
        law_stores_keep_other(s, init, id);
        let last = entries.last();
        assert(last == entries[n]);
        assert(!(last.images@.len() > 0 && stored_all(s, init).len() >= ATTACHMENT_CAPACITY && stored_all(
            s,
            init,
        )[0].id == id));
        law_store_keeps_other(stored_all(s, init), last.id, last.images, id);
    }
}

/// A message's images can be taken exactly when the cache holds an entry
/// for that message.
pub proof fn law_take_finds_held(s: Seq<ImagesData>, id: u64)
    ensures
        first_with_id(s, id) is Some <==> holds_id(s, id),
    decreases s.len(),
{
    if s.len() > 0 {
        let t = s.drop_first();
        law_take_finds_held(t, id);
        if holds_id(t, id) {
            let i = choose|i: int| 0 <= i < t.len() && (#[trigger] t[i]).id == id;
            assert(s[i + 1] == t[i]);
        }
        if s[0].id != id && holds_id(s, id) {
            let i = choose|i: int| 0 <= i < s.len() && (#[trigger] s[i]).id == id;
            assert(t[i - 1] == s[i]);
        }
    }
}

/// A bounded, oldest-first store of the attachments of recent messages, kept
/// so that a deleted message's files can be posted again.
pub struct AttachmentCache {
    entries: Vec<ImagesData>,
}

impl View for AttachmentCache {
    type V = Seq<ImagesData>;

    closed spec fn view(&self) -> Seq<ImagesData> {
        self.entries@
    }
}

impl AttachmentCache {
    #[verifier::type_invariant]
    spec fn within_capacity(self) -> bool {
        self.entries@.len() <= ATTACHMENT_CAPACITY
    }

    /// An empty cache.
    pub fn new() -> (r: Self)
        ensures
            r@ == Seq::<ImagesData>::empty(),
    {
        AttachmentCache { entries: Vec::new() }
    }

    /// Number of messages whose attachments are kept.
    pub fn len(&self) -> (r: usize)
        ensures
            r == self@.len(),
            r <= ATTACHMENT_CAPACITY,
    {
        proof { use_type_invariant(self); }
        self.entries.len()
    }

    /// Keeps the images of message `id`, when there are any; a full cache
    /// first forgets its oldest entry.
    pub fn store(&mut self, id: u64, images: Vec<Image>)
        ensures
            final(self)@ == stored(old(self)@, ImagesData { id, images }),
            final(self)@.len() <= ATTACHMENT_CAPACITY,
    {
        proof { use_type_invariant(&*self); }
        if images.len() == 0 {
            return;
        }
        let mut entries: Vec<ImagesData> = Vec::new();
        std::mem::swap(&mut entries, &mut self.entries);
        if entries.len() >= ATTACHMENT_CAPACITY {
            entries.remove(0);
        }
        entries.push(ImagesData { id, images });
        self.entries = entries;
    }

    /// Removes every entry of message `id` and hands back the oldest of them.
    pub fn take(&mut self, id: u64) -> (r: Option<ImagesData>)
        ensures
            r == first_with_id(old(self)@, id),
            final(self)@ == without_id(old(self)@, id),
            final(self)@.len() <= ATTACHMENT_CAPACITY,
    {
        proof { use_type_invariant(&*self); }
        let ghost orig = self.entries@;
        let mut rest: Vec<ImagesData> = Vec::new();
        std::mem::swap(&mut rest, &mut self.entries);
        let mut kept: Vec<ImagesData> = Vec::new();
        let mut found: Option<ImagesData> = None;
        while rest.len() > 0
            invariant
                orig.len() <= ATTACHMENT_CAPACITY,
                kept@.len() + rest@.len() <= orig.len(),
                kept@ + without_id(rest@, id) == without_id(orig, id),
                found is Some ==> found == first_with_id(orig, id),
                found is None ==> first_with_id(rest@, id) == first_with_id(orig, id),
            decreases rest@.len(),
        {
            let ghost before = rest@;
            let e = rest.remove(0);
            proof {
                assert(rest@ =~= before.drop_first());
                assert(kept@ + without_id(before, id) == without_id(orig, id));
            }
            if e.id == id {
                if found.is_none() {
                    found = Some(e);
                }
            } else {
                let ghost k0 = kept@;
                kept.push(e);
                proof {
                    assert(kept@ + without_id(rest@, id) =~= k0 + (seq![before[0]] + without_id(rest@, id)));
                }
            }
        }
        proof {
            assert(kept@ =~= kept@ + without_id(rest@, id));
        }
        self.entries = kept;
        found
    }
}

} // verus!
