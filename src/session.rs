use vstd::prelude::*;

verus! {

/// The user that the latest entry for `token` names, if any.
pub open spec fn lookup(entries: Seq<(String, i64)>, token: Seq<char>) -> Option<i64>
    decreases entries.len(),
{
    if entries.len() == 0 {
        None
    } else if entries.last().0@ == token {
        Some(entries.last().1)
    } else {
        lookup(entries.drop_last(), token)
    }
}

/// In-memory map from session tokens to the id of the signed-in user.
/// Sessions live as long as the store; none expires.
pub struct SessionStore {
    entries: Vec<(String, i64)>,
}

impl View for SessionStore {
    type V = Map<Seq<char>, i64>;

    closed spec fn view(&self) -> Map<Seq<char>, i64> {
        Map::new(
            |t: Seq<char>| lookup(self.entries@, t) is Some,
            |t: Seq<char>| lookup(self.entries@, t)->Some_0,
        )
    }
}

proof fn lemma_lookup_push(s: Seq<(String, i64)>, x: (String, i64), t: Seq<char>)
    ensures
        lookup(s.push(x), t) == if x.0@ == t { Some(x.1) } else { lookup(s, t) },
{
    assert(s.push(x).drop_last() =~= s);
}

impl SessionStore {
    pub fn new() -> (r: SessionStore)
        ensures
            r@ == Map::<Seq<char>, i64>::empty(),
    {
        let r = SessionStore { entries: Vec::new() };
        assert(r@ =~= Map::<Seq<char>, i64>::empty());
        r
    }

    /// The entries whose token is not `token`, in their order.
    fn without(&self, token: &String) -> (r: Vec<(String, i64)>)
        ensures
            forall|t: Seq<char>| #[trigger] lookup(r@, t) == if t == token@ { None } else { lookup(self.entries@, t) },
    {
        let mut out: Vec<(String, i64)> = Vec::new();
        let n = self.entries.len();
        let mut i: usize = 0;
        while i < n
            invariant
                n == self.entries@.len(),
                0 <= i <= n,
                forall|t: Seq<char>| #[trigger] lookup(out@, t) == if t == token@ { None } else { lookup(self.entries@.take(i as int), t) },
            decreases n - i,
        {
            let e = &self.entries[i];
            let ghost before = out@;
            if e.0 != *token {
                out.push((e.0.clone(), e.1));
            }
            proof {
                let s = self.entries@;
                assert(s.take(i + 1).drop_last() =~= s.take(i as int));
                assert forall|t: Seq<char>| #[trigger] lookup(out@, t) == if t == token@ { None } else { lookup(s.take(i + 1), t) } by {
                    if e.0@ != token@ {
                        lemma_lookup_push(before, (e.0, e.1), t);
                    }
                }
            }
            i = i + 1;
        }
        proof {
            assert(self.entries@.take(n as int) =~= self.entries@);
        }
        out
    }

    /// Records that `token` signs in `user_id`, replacing what it named before.
    pub fn put(&mut self, token: String, user_id: i64)
        ensures
            final(self)@ == old(self)@.insert(token@, user_id),
    {
        let mut rest = self.without(&token);
        let ghost tv = token@;
        let ghost before = rest@;
        rest.push((token, user_id));
        proof {
            assert forall|t: Seq<char>| #[trigger] lookup(rest@, t) == if t == tv { Some(user_id) } else { lookup(old(self).entries@, t) } by {
                lemma_lookup_push(before, (rest@.last().0, user_id), t);
                assert(rest@.last().0@ == tv);
            }
        }
        self.entries = rest;
        assert(self@ =~= old(self)@.insert(tv, user_id));
    }

    /// The user that `token` signs in, if the session exists.
    pub fn get(&self, token: &str) -> (r: Option<i64>)
        ensures
            r == (if self@.contains_key(token@) { Some(self@[token@]) } else { None }),
    {
        let wanted = token.to_owned();
        let mut i: usize = self.entries.len();
        proof {
            assert(self.entries@.take(i as int) =~= self.entries@);
        }
        while i > 0
            invariant
                0 <= i <= self.entries@.len(),
                lookup(self.entries@, token@) == lookup(self.entries@.take(i as int), token@),
                wanted@ == token@,
            decreases i,
        {
            let e = &self.entries[i - 1];
            proof {
                assert(self.entries@.take(i as int).drop_last() =~= self.entries@.take(i - 1));
            }
            if e.0 == wanted {
                return Some(e.1);
            }
            i = i - 1;
        }
        None
    }

    /// Ends the session of `token`, if there is one.
    pub fn remove(&mut self, token: &String)
        ensures
            final(self)@ == old(self)@.remove(token@),
    {
        let rest = self.without(token);
        self.entries = rest;
        assert(self@ =~= old(self)@.remove(token@));
    }
}

} // verus!
