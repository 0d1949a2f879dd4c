//! Model of the challenge directory served by the transient HTTP-01
//! responder: the proof files written for each token, and what a request
//! for `/.well-known/acme-challenge/<token>` is answered with.
//!
//! The driver mirrors every operation on this model onto the real
//! directory, so the model's map is the source of truth for what the
//! responder serves.

use vstd::prelude::*;

verus! {

/// The proof files of one provisioning run, keyed by challenge token.
/// A later write for the same token replaces the earlier file.
pub struct ChallengeDir {
    entries: Vec<(String, Vec<u8>)>,
}

/// The map from token to proof bytes that a list of writes leaves behind:
/// later writes win.
spec fn dir_map_of(entries: Seq<(String, Vec<u8>)>) -> Map<Seq<char>, Seq<u8>>
    decreases entries.len(),
{
    if entries.len() == 0 {
        Map::empty()
    } else {
        dir_map_of(entries.drop_last()).insert(entries.last().0@, entries.last().1@)
    }
}

impl View for ChallengeDir {
    type V = Map<Seq<char>, Seq<u8>>;

    closed spec fn view(&self) -> Map<Seq<char>, Seq<u8>> {
        dir_map_of(self.entries@)
    }
}

/// Keys absent from the written suffix leave the directory's map unchanged:
/// looking a token up may ignore every later entry with a different token.
proof fn lemma_dir_map_untouched_suffix(entries: Seq<(String, Vec<u8>)>, i: int, k: Seq<char>)
    requires
        0 <= i <= entries.len(),
        forall|j: int| i <= j < entries.len() ==> entries[j].0@ != k,
    ensures
        dir_map_of(entries).contains_key(k) == dir_map_of(entries.take(i)).contains_key(k),
        dir_map_of(entries).contains_key(k) ==> dir_map_of(entries)[k] == dir_map_of(
            entries.take(i),
        )[k],
    decreases entries.len() - i,
{
    if i == entries.len() {
        assert(entries.take(i) =~= entries);
    } else {
        lemma_dir_map_untouched_suffix(entries, i + 1, k);
        assert(entries.take(i + 1).drop_last() =~= entries.take(i));
        assert(entries.take(i + 1).last() == entries[i]);
    }
}

impl ChallengeDir {
    /// An empty challenge directory, created right before the responder
    /// starts.
    pub fn new() -> (d: ChallengeDir)
        ensures
            d@ == Map::<Seq<char>, Seq<u8>>::empty(),
    {
        ChallengeDir { entries: Vec::new() }
    }

    /// Writes the proof bytes for one token; an existing file for the same
    /// token is replaced.
    pub fn write_proof(&mut self, token: String, proof: Vec<u8>)
        ensures
            final(self)@ == old(self)@.insert(token@, proof@),
    {
        let ghost before = self.entries@;
        self.entries.push((token, proof));
        proof {
            assert(self.entries@.drop_last() =~= before);
        }
    }

    /// What a GET for this token is answered with while the responder is
    /// serving the directory: exactly the proof bytes last written for the
    /// token, or nothing when no proof was written.
    pub fn serve(&self, token: &String) -> (r: Option<&Vec<u8>>)
        ensures
            r is Some <==> self@.contains_key(token@),
            r is Some ==> r->0@ == self@[token@],
    {
        let mut i: usize = self.entries.len();
        while i > 0
            invariant
                i <= self.entries.len(),
                forall|j: int| i <= j < self.entries@.len() ==> self.entries@[j].0@ != token@,
            decreases i,
        {
            i = i - 1;
            if self.entries[i].0 == *token {
                proof {
                    lemma_dir_map_untouched_suffix(self.entries@, i + 1, token@);
                    assert(self.entries@.take(i + 1).drop_last() =~= self.entries@.take(i as int));
                    assert(self.entries@.take(i + 1).last() == self.entries@[i as int]);
                }
                return Some(&self.entries[i].1);
            }
        }
        proof {
            lemma_dir_map_untouched_suffix(self.entries@, 0, token@);
            assert(self.entries@.take(0) =~= Seq::<(String, Vec<u8>)>::empty());
        }
        None
    }

    /// Removes every proof file: what cleanup does to the directory's
    /// contents before the directory itself goes away.
    pub fn remove_all(&mut self)
        ensures
            final(self)@ == Map::<Seq<char>, Seq<u8>>::empty(),
    {
        self.entries = Vec::new();
    }

}

/// The transient HTTP-01 responder: while it is running it answers a GET
/// under `/.well-known/acme-challenge/<token>` from its proof directory;
/// once stopped it answers nothing and holds no proof file.
pub struct Responder {
    running: bool,
    root: ChallengeDir,
}

impl Responder {
    /// The responder is bound and serving.
    pub closed spec fn is_running(&self) -> bool {
        self.running
    }

    /// The proof files currently in the serving root, by token.
    pub closed spec fn proofs(&self) -> Map<Seq<char>, Seq<u8>> {
        self.root@
    }

    /// Starts the responder over a freshly created, empty proof
    /// directory.
    pub fn start() -> (r: Responder)
        ensures
            r.is_running(),
            r.proofs() == Map::<Seq<char>, Seq<u8>>::empty(),
    {
        Responder { running: true, root: ChallengeDir::new() }
    }

    /// Writes the proof file for one token into the serving root,
    /// replacing an earlier file for the same token.
    pub fn write_proof(&mut self, token: String, proof: Vec<u8>)
        ensures
            final(self).proofs() == old(self).proofs().insert(token@, proof@),
            final(self).is_running() == old(self).is_running(),
    {
        self.root.write_proof(token, proof);
    }

    /// Answers one GET for the well-known path of the given token: while
    /// running, exactly the proof bytes last written for the token; after
    /// stopping, nothing.
    pub fn handle_get(&self, token: &String) -> (r: Option<&Vec<u8>>)
        ensures
            self.is_running() ==> ((r is Some) <==> self.proofs().contains_key(token@)),
            r matches Some(p) ==> self.is_running() && p@ == self.proofs()[token@],
    {
        if self.running {
            self.root.serve(token)
        } else {
            None
        }
    }

    /// Stops the responder and removes the proof directory: nothing is
    /// served any more and no proof file is left behind.
    pub fn stop(&mut self)
        ensures
            !final(self).is_running(),
            final(self).proofs() == Map::<Seq<char>, Seq<u8>>::empty(),
    {
        self.running = false;
        self.root.remove_all();
    }
}

/// While the responder is running, a GET for any token whose proof was
/// written (and not replaced since) answers exactly the proof bytes
/// written.
pub proof fn lemma_running_responder_serves_written_proof(
    r: Responder,
    token: String,
    proof_bytes: Vec<u8>,
)
    requires
        r.is_running(),
    ensures
        r.proofs().insert(token@, proof_bytes@).contains_key(token@),
        r.proofs().insert(token@, proof_bytes@)[token@] == proof_bytes@,
{
}

} // verus!
