//! Token records over a key/value store.
//!
//! A record is three entries: `token -> uid`, `uid -> token` (the reverse
//! index) and `dn_<token> -> distinguished name`. Rotation replaces the
//! record of an identity in a single batch.

use crate::store::{apply_batch, apply_op, OpModel, Store, WriteBatchWrapper};
use crate::token::{generate, is_token, is_well_formed, TOKEN_LENGTH};
use vstd::prelude::*;
use vstd::string::{StrSliceExecFns, StringExecFns};

verus! {

/// Contents of a key/value store.
pub type Contents = Map<Seq<char>, Seq<char>>;

/// The prefix of the key under which a token's distinguished name is kept.
pub open spec fn dn_prefix() -> Seq<char> {
    seq!['d', 'n', '_']
}

/// The key under which the distinguished name of `token` is kept.
pub open spec fn dn_key(token: Seq<char>) -> Seq<char> {
    dn_prefix() + token
}

/// Whether `key` has the shape of a distinguished-name key.
pub open spec fn has_dn_prefix(key: Seq<char>) -> bool {
    key.len() >= 3 && key.take(3) == dn_prefix()
}

/// Whether `key` is the distinguished-name key of a well-formed token.
pub open spec fn is_dn_key(key: Seq<char>) -> bool {
    has_dn_prefix(key) && is_token(key.skip(3))
}

/// An identity whose key can clash neither with a token nor with the
/// distinguished-name key of a token.
pub open spec fn is_identity(uid: Seq<char>) -> bool {
    !is_token(uid) && !is_dn_key(uid)
}

/// What a token resolves to: the identity and the distinguished name bound to
/// it, provided both entries are present.
pub open spec fn resolve(contents: Contents, token: Seq<char>) -> Option<(Seq<char>, Seq<char>)> {
    if contents.contains_key(token) && contents.contains_key(dn_key(token)) {
        Some((contents[token], contents[dn_key(token)]))
    } else {
        None
    }
}

/// The token that the reverse index holds for `uid`, if any.
pub open spec fn current_token(contents: Contents, uid: Seq<char>) -> Option<Seq<char>> {
    if contents.contains_key(uid) {
        Some(contents[uid])
    } else {
        None
    }
}

/// The batch of a rotation: the two deletions for the previous token, where
/// there is one, followed by the three writes of the new record.
pub open spec fn rotation_ops(
    previous: Option<Seq<char>>,
    uid: Seq<char>,
    dn: Seq<char>,
    token: Seq<char>,
) -> Seq<OpModel> {
    let deletions = match previous {
        Some(old) => seq![OpModel::Del { key: old }, OpModel::Del { key: dn_key(old) }],
        None => Seq::<OpModel>::empty(),
    };
    deletions + seq![
        OpModel::Put { key: token, value: uid },
        OpModel::Put { key: uid, value: token },
        OpModel::Put { key: dn_key(token), value: dn },
    ]
}

/// The contents after the record of `uid` has been replaced by one for
/// `token`.
pub open spec fn rotated(contents: Contents, uid: Seq<char>, dn: Seq<char>, token: Seq<char>)
    -> Contents {
    let cleared = match current_token(contents, uid) {
        Some(old) => contents.remove(old).remove(dn_key(old)),
        None => contents,
    };
    cleared.insert(token, uid).insert(uid, token).insert(dn_key(token), dn)
}

/// Every live token has its distinguished name, belongs to an identity, and is
/// the one token that the reverse index holds for that identity; and the
/// reverse index holds nothing but tokens.
pub open spec fn records_complete(contents: Contents) -> bool {
    &&& forall|token: Seq<char>|
        is_token(token) && #[trigger] contents.contains_key(token) ==> {
            &&& contents.contains_key(dn_key(token))
            &&& is_identity(contents[token])
            &&& contents.contains_key(contents[token])
            &&& contents[contents[token]] == token
        }
    &&& forall|uid: Seq<char>|
        is_identity(uid) && #[trigger] contents.contains_key(uid) ==> is_token(contents[uid])
}

/// Committing the batch of a rotation gives the rotated contents.
pub proof fn lemma_rotation_batch(contents: Contents, uid: Seq<char>, dn: Seq<char>, token: Seq<char>)
    ensures
        apply_batch(contents, rotation_ops(current_token(contents, uid), uid, dn, token))
            == rotated(contents, uid, dn, token),
{
    let ops = rotation_ops(current_token(contents, uid), uid, dn, token);
    reveal_with_fuel(apply_batch, 6);
    match current_token(contents, uid) {
        Some(old) => {
            let o4 = ops.drop_last();
            let o3 = o4.drop_last();
            let o2 = o3.drop_last();
            let o1 = o2.drop_last();
            assert(ops.len() == 5);
            assert(o1.drop_last().len() == 0);
            assert(apply_batch(contents, o1) == contents.remove(old));
            assert(apply_batch(contents, o2) == contents.remove(old).remove(dn_key(old)));
            assert(apply_batch(contents, o3) == apply_op(apply_batch(contents, o2), o3.last()));
            assert(apply_batch(contents, o4) == apply_op(apply_batch(contents, o3), o4.last()));
        },
        None => {
            let o2 = ops.drop_last();
            let o1 = o2.drop_last();
            assert(ops.len() == 3);
            assert(o1.drop_last().len() == 0);
            assert(apply_batch(contents, o1) == contents.insert(token, uid));
            assert(apply_batch(contents, o2) == apply_op(apply_batch(contents, o1), o2.last()));
        },
    }
}

/// A distinguished-name key is never the token it was made from, and the
/// key of a well-formed token is neither a token nor an identity.
pub proof fn lemma_dn_key_shape(token: Seq<char>)
    ensures
        dn_key(token) != token,
        has_dn_prefix(dn_key(token)),
        is_dn_key(dn_key(token)) <==> is_token(token),
        is_token(token) ==> !is_identity(dn_key(token)) && !is_token(dn_key(token)),
{
    assert(dn_key(token).len() == token.len() + 3);
    assert(dn_key(token).take(3) =~= dn_prefix());
    assert(dn_key(token).skip(3) =~= token);
}

/// Distinct tokens have distinct distinguished-name keys.
pub proof fn lemma_dn_key_injective(a: Seq<char>, b: Seq<char>)
    ensures
        dn_key(a) == dn_key(b) <==> a == b,
{
    if dn_key(a) == dn_key(b) {
        assert(dn_key(a).skip(3) =~= a);
        assert(dn_key(b).skip(3) =~= b);
    }
}

/// A token contains no underscore, so it never has the shape of a
/// distinguished-name key.
pub proof fn lemma_token_has_no_dn_prefix(token: Seq<char>)
    requires
        is_token(token),
    ensures
        !has_dn_prefix(token),
{
    if has_dn_prefix(token) {
        assert(token.take(3)[2] == '_');
        assert(token[2] == '_');
    }
}

/// After a rotation the new token resolves to the identity and distinguished
/// name it was issued for, whatever the store held before.
pub proof fn lemma_rotated_token_resolves(
    contents: Contents,
    uid: Seq<char>,
    dn: Seq<char>,
    token: Seq<char>,
)
    ensures
        resolve(rotated(contents, uid, dn, token), token) == Some((uid, dn)),
{
    lemma_dn_key_shape(token);
}

/// Rotating twice for one identity: the first token no longer resolves after
/// the second rotation, and the second resolves to the same identity and
/// distinguished name. The two tokens must differ, and the identity must not
/// be the distinguished-name key of its own first token while the
/// distinguished name differs from that token: in either case the first
/// record is written afresh or is never found again.
pub proof fn lemma_rotate_twice(
    contents: Contents,
    uid: Seq<char>,
    dn: Seq<char>,
    first: Seq<char>,
    second: Seq<char>,
)
    requires
        is_token(first),
        is_token(second),
        first != second,
        uid == dn_key(first) ==> dn == first,
    ensures
        resolve(rotated(rotated(contents, uid, dn, first), uid, dn, second), first) is None,
        resolve(rotated(rotated(contents, uid, dn, first), uid, dn, second), second) == Some(
            (uid, dn),
        ),
{
    let once = rotated(contents, uid, dn, first);
    let twice = rotated(once, uid, dn, second);
    lemma_dn_key_shape(first);
    lemma_dn_key_shape(second);
    lemma_dn_key_injective(first, second);
    lemma_token_has_no_dn_prefix(first);
    lemma_token_has_no_dn_prefix(second);
    lemma_rotated_token_resolves(once, uid, dn, second);
    assert(once.contains_key(uid));
    assert(once[uid] == first);
    assert(dn_key(second).len() == TOKEN_LENGTH + 3);
    assert(dn_key(first).len() == TOKEN_LENGTH + 3);
    if uid == first {
        assert(!twice.contains_key(dn_key(first)));
    } else {
        assert(!twice.contains_key(first));
    }
}

/// Rotation keeps every record complete: if no live token lacks its
/// distinguished name or its identity before the batch, none does after it.
/// The identity must have a key of its own, one that is neither shaped like a
/// token nor like the distinguished-name key of a token.
pub proof fn lemma_rotation_keeps_records_complete(
    contents: Contents,
    uid: Seq<char>,
    dn: Seq<char>,
    token: Seq<char>,
)
    requires
        records_complete(contents),
        is_token(token),
        is_identity(uid),
    ensures
        records_complete(rotated(contents, uid, dn, token)),
{
    let after = rotated(contents, uid, dn, token);
    lemma_dn_key_shape(token);
    lemma_token_has_no_dn_prefix(token);
    assert forall|t: Seq<char>| is_token(t) && #[trigger] after.contains_key(t) implies {
        &&& after.contains_key(dn_key(t))
        &&& is_identity(after[t])
        &&& after.contains_key(after[t])
        &&& after[after[t]] == t
    } by {
        lemma_dn_key_shape(t);
        lemma_dn_key_injective(t, token);
        lemma_token_has_no_dn_prefix(t);
        if t != token {
            assert(contents.contains_key(t));
            match current_token(contents, uid) {
                Some(old) => {
                    lemma_dn_key_injective(t, old);
                    lemma_dn_key_shape(old);
                    lemma_token_has_no_dn_prefix(old);
                },
                None => {},
            }
            let owner = contents[t];
            lemma_dn_key_shape(token);
            if owner == uid {
                assert(contents[uid] == t);
            }
        }
    }
    assert forall|u: Seq<char>| is_identity(u) && #[trigger] after.contains_key(u) implies is_token(
        after[u],
    ) by {
        if u != uid {
            assert(contents.contains_key(u));
        }
    }
}

/// One rotation: the identity, the distinguished name and the token issued.
pub struct Rotation {
    pub uid: Seq<char>,
    pub dn: Seq<char>,
    pub token: Seq<char>,
}

/// The contents after the rotations of `history`, first to last.
pub open spec fn after_rotations(contents: Contents, history: Seq<Rotation>) -> Contents
    decreases history.len(),
{
    if history.len() == 0 {
        contents
    } else {
        rotated(
            after_rotations(contents, history.drop_last()),
            history.last().uid,
            history.last().dn,
            history.last().token,
        )
    }
}

/// Whatever rotations are committed one after the other to a store whose
/// records are complete, the records are complete after each of them: no
/// state between two batches holds a token without its distinguished name.
/// Every identity must have a key of its own and every token be well formed.
pub proof fn lemma_records_complete_throughout(contents: Contents, history: Seq<Rotation>)
    requires
        records_complete(contents),
        forall|i: int|
            0 <= i < history.len() ==> is_identity((#[trigger] history[i]).uid) && is_token(
                history[i].token,
            ),
    ensures
        forall|n: int|
            0 <= n <= history.len() ==> records_complete(
                #[trigger] after_rotations(contents, history.take(n)),
            ),
    decreases history.len(),
{
    assert forall|n: int| 0 <= n <= history.len() implies records_complete(
        #[trigger] after_rotations(contents, history.take(n)),
    ) by {
        if n == history.len() {
            assert(history.take(n) =~= history);
            if n > 0 {
                let earlier = history.drop_last();
                lemma_records_complete_throughout(contents, earlier);
                assert(earlier.take(n - 1) =~= earlier);
                lemma_rotation_keeps_records_complete(
                    after_rotations(contents, earlier),
                    history.last().uid,
                    history.last().dn,
                    history.last().token,
                );
            }
        } else {
            let earlier = history.drop_last();
            lemma_records_complete_throughout(contents, earlier);
            assert(earlier.take(n) =~= history.take(n));
        }
    }
}

/// Where every record is complete, an identity has at most one live token:
/// two live tokens of one identity are the same token.
pub proof fn lemma_one_live_token(contents: Contents, first: Seq<char>, second: Seq<char>)
    requires
        records_complete(contents),
        is_token(first),
        is_token(second),
        contents.contains_key(first),
        contents.contains_key(second),
        contents[first] == contents[second],
    ensures
        first == second,
        resolve(contents, first) is Some,
{
}

/// The empty store holds no incomplete record.
pub proof fn lemma_empty_records_complete()
    ensures
        records_complete(Map::<Seq<char>, Seq<char>>::empty()),
{
}

/// Whether `uid` has a key of its own: one that is neither shaped like a
/// token nor like the distinguished-name key of a token. Only for such
/// identities does a rotation keep every record complete.
pub fn has_own_key(uid: &str) -> (ok: bool)
    ensures
        ok == is_identity(uid@),
{
    if is_well_formed(uid) {
        return false;
    }
    let length = uid.unicode_len();
    if length < 3 {
        return true;
    }
    if uid.get_char(0) != 'd' || uid.get_char(1) != 'n' || uid.get_char(2) != '_' {
        assert(uid@.take(3)[0] == uid@[0]);
        assert(uid@.take(3)[1] == uid@[1]);
        assert(uid@.take(3)[2] == uid@[2]);
        return true;
    }
    assert(uid@.take(3) =~= dn_prefix());
    let rest = uid.substring_char(3, length);
    assert(rest@ =~= uid@.skip(3));
    !is_well_formed(rest)
}

/// The key under which the distinguished name of `token` is kept.
pub fn dn_key_of(token: &str) -> (key: String)
    ensures
        key@ == dn_key(token@),
{
    proof {
        reveal_strlit("dn_");
    }
    let prefix = "dn_";
    prefix.to_owned().concat(token)
}

/// The batch that replaces the record of `uid`: `previous` is the token the
/// reverse index held for `uid` when it was read.
pub fn rotation_batch(previous: Option<&str>, uid: &str, dn: &str, token: &str) -> (batch:
    WriteBatchWrapper)
    ensures
        batch@ == rotation_ops(
            match previous {
                Some(old) => Some(old@),
                None => None,
            },
            uid@,
            dn@,
            token@,
        ),
{
    let mut batch = WriteBatchWrapper { wb: Vec::new() };
    match previous {
        Some(old) => {
            let old_dn = dn_key_of(old);
            batch = batch.del(old).del(old_dn.as_str());
        },
        None => {},
    }
    let new_dn = dn_key_of(token);
    batch = batch.put(token, uid).put(uid, token).put(new_dn.as_str(), dn);
    batch
}

/// The store of token records.
pub struct TokenStore {
    store: Store,
}

impl View for TokenStore {
    type V = Contents;

    closed spec fn view(&self) -> Contents {
        self.store@
    }
}

impl TokenStore {
    /// A token store over `store`, with whatever entries it holds.
    pub fn new(store: Store) -> (tokens: TokenStore)
        ensures
            tokens@ == store@,
    {
        TokenStore { store }
    }

    /// The underlying key/value store.
    pub fn store(&self) -> (store: &Store)
        ensures
            store@ == self@,
    {
        &self.store
    }

    /// Resolves `token` to the identity and distinguished name it was issued
    /// for. A token whose primary entry or whose distinguished-name entry is
    /// missing resolves to nothing.
    pub fn lookup(&self, token: &str) -> (found: Option<(String, String)>)
        ensures
            match found {
                Some((uid, dn)) => resolve(self@, token@) == Some((uid@, dn@)),
                None => resolve(self@, token@) is None,
            },
    {
        match self.store.get(token) {
            Some(uid) => {
                let key = dn_key_of(token);
                match self.store.get(key.as_str()) {
                    Some(dn) => Some((uid, dn)),
                    None => None,
                }
            },
            None => None,
        }
    }

    /// The batch that would replace the record of `uid` by one for `token`:
    /// the deletions for the token that the reverse index holds for `uid`
    /// now, where there is one, and the three writes of the new record.
    /// Nothing is changed; committing the batch to this store as it stands
    /// gives the rotated contents.
    pub fn plan_rotation(&self, uid: &str, dn: &str, token: &str) -> (batch: WriteBatchWrapper)
        ensures
            batch@ == rotation_ops(current_token(self@, uid@), uid@, dn@, token@),
            apply_batch(self@, batch@) == rotated(self@, uid@, dn@, token@),
    {
        let previous = self.store.get(uid);
        proof {
            lemma_rotation_batch(self@, uid@, dn@, token@);
        }
        match &previous {
            Some(old) => rotation_batch(Some(old.as_str()), uid, dn, token),
            None => rotation_batch(None, uid, dn, token),
        }
    }

    /// Applies every operation of `batch`, in order, as one unit. A caller
    /// that keeps the records elsewhere too writes the batch there first and
    /// commits it here once that has succeeded.
    pub fn commit(&mut self, batch: WriteBatchWrapper)
        ensures
            final(self)@ == apply_batch(old(self)@, batch@),
    {
        self.store.commit(batch);
    }

    /// Replaces the record of `uid` by one for `token`, in one batch: the
    /// previous token of `uid` and its distinguished name are deleted and the
    /// three entries of the new record are written. Returns the batch that was
    /// committed.
    pub fn rotate_with(&mut self, uid: &str, dn: &str, token: &str) -> (batch: WriteBatchWrapper)
        ensures
            final(self)@ == rotated(old(self)@, uid@, dn@, token@),
            batch@ == rotation_ops(current_token(old(self)@, uid@), uid@, dn@, token@),
            resolve(final(self)@, token@) == Some((uid@, dn@)),
            records_complete(old(self)@) && is_identity(uid@) && is_token(token@)
                ==> records_complete(final(self)@),
    {
        let batch = self.plan_rotation(uid, dn, token);
        let committed = batch.duplicate();
        proof {
            lemma_rotated_token_resolves(self@, uid@, dn@, token@);
            if records_complete(self@) && is_identity(uid@) && is_token(token@) {
                lemma_rotation_keeps_records_complete(self@, uid@, dn@, token@);
            }
        }
        self.commit(batch);
        committed
    }

    /// Issues a fresh token for `uid` and replaces the record of `uid` by one
    /// for it. The store does not compare the new token with the keys it
    /// already holds.
    pub fn rotate(&mut self, uid: &str, dn: &str) -> (token: String)
        ensures
            is_token(token@),
            final(self)@ == rotated(old(self)@, uid@, dn@, token@),
            resolve(final(self)@, token@) == Some((uid@, dn@)),
            records_complete(old(self)@) && is_identity(uid@) ==> records_complete(final(self)@),
    {
        let token = generate();
        let _ = self.rotate_with(uid, dn, token.as_str());
        token
    }
}

} // verus!
