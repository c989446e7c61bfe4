//! The session pool: at most one cached session per endpoint.
//!
//! An endpoint is named by user, host and port. The pool does not connect;
//! the caller looks a target up, connects where nothing is cached, and
//! stores the new session. The kind of session is the caller's choice.

use crate::config::{Config, ServerDefinition};
use crate::text::{append_decimal, decimal, same_text};
use vstd::prelude::*;

verus! {

/// The name of an endpoint: `user@host:port`.
pub open spec fn connection_key(user: Seq<char>, host: Seq<char>, port: u32) -> Seq<char> {
    user + "@"@ + host + ":"@ + decimal(port as nat)
}

/// Whether the pool `p` holds a session under `key`.
pub open spec fn pool_has<S>(p: Seq<(Seq<char>, S)>, key: Seq<char>) -> bool {
    exists|i: int| 0 <= i < p.len() && (#[trigger] p[i]).0 == key
}

/// An index at which the pool `p` holds `key`; the only one where keys
/// are distinct.
pub open spec fn pool_index<S>(p: Seq<(Seq<char>, S)>, key: Seq<char>) -> int {
    choose|i: int| 0 <= i < p.len() && (#[trigger] p[i]).0 == key
}

/// The session that the pool `p` holds under `key`.
pub open spec fn pool_session<S>(p: Seq<(Seq<char>, S)>, key: Seq<char>) -> S {
    p[pool_index(p, key)].1
}

/// Whether every key of the pool `p` occurs once.
pub open spec fn pool_distinct<S>(p: Seq<(Seq<char>, S)>) -> bool {
    forall|i: int, j: int| 0 <= i < j < p.len() ==> (#[trigger] p[i]).0 != (#[trigger] p[j]).0
}

/// In a pool with distinct keys, the index of a key is the one index that
/// holds it.
pub proof fn lemma_pool_index<S>(p: Seq<(Seq<char>, S)>, key: Seq<char>, i: int)
    requires
        pool_distinct(p),
        0 <= i < p.len(),
        p[i].0 == key,
    ensures
        pool_has(p, key),
        pool_index(p, key) == i,
        pool_session(p, key) == p[i].1,
{
    let k = pool_index(p, key);
    if k < i {
        assert(p[k].0 != p[i].0);
    } else if i < k {
        assert(p[i].0 != p[k].0);
    }
}

/// One cached session.
pub struct PoolEntry<S> {
    pub key: String,
    pub session: S,
}

/// Sessions cached by endpoint, with the configuration they were made
/// under.
pub struct SshPool<S> {
    connections: Vec<PoolEntry<S>>,
    config: Config,
}

impl<S> View for SshPool<S> {
    type V = Seq<(Seq<char>, S)>;

    closed spec fn view(&self) -> Seq<(Seq<char>, S)> {
        self.connections@.map_values(|e: PoolEntry<S>| (e.key@, e.session))
    }
}

impl<S> SshPool<S> {
    /// Whether every endpoint is cached once.
    pub open spec fn wf(&self) -> bool {
        pool_distinct(self@)
    }

    /// The configuration of the pool.
    pub closed spec fn config_spec(&self) -> Config {
        self.config
    }

    /// An empty pool for sessions made under `config`.
    pub fn new(config: Config) -> (r: SshPool<S>)
        ensures
            r@ == Seq::<(Seq<char>, S)>::empty(),
            r.config_spec() == config,
            r.wf(),
    {
        let r = SshPool { connections: Vec::new(), config };
        assert(r@ =~= Seq::<(Seq<char>, S)>::empty());
        r
    }

    /// The configuration that sessions of this pool are made under.
    pub fn config(&self) -> (r: &Config)
        ensures
            *r == self.config_spec(),
    {
        &self.config
    }

    /// Number of cached sessions.
    pub fn len(&self) -> (n: usize)
        ensures
            n == self@.len(),
    {
        self.connections.len()
    }

    /// The name of the endpoint of `server`.
    pub fn key_for(server: &ServerDefinition) -> (r: String)
        ensures
            r@ == connection_key(server@.user, server@.host, server@.port),
    {
        let mut r = server.user.clone();
        r.append("@");
        r.append(server.host.as_str());
        r.append(":");
        append_decimal(&mut r, server.port as u64);
        r
    }

    fn position(&self, key: &str) -> (r: Option<usize>)
        ensures
            match r {
                Some(i) => i < self@.len() && self@[i as int].0 == key@,
                None => !pool_has(self@, key@),
            },
    {
        let mut i: usize = 0;
        while i < self.connections.len()
            invariant
                i <= self.connections.len(),
                forall|k: int| 0 <= k < i ==> (#[trigger] self@[k]).0 != key@,
            decreases self.connections.len() - i,
        {
            if same_text(self.connections[i].key.as_str(), key) {
                return Some(i);
            }
            i += 1;
        }
        None
    }

    /// The cached session for the endpoint of `server`, if there is one.
    pub fn get_connection(&self, server: &ServerDefinition) -> (r: Option<&S>)
        requires
            self.wf(),
        ensures
            ({
                let key = connection_key(server@.user, server@.host, server@.port);
                match r {
                    Some(session) => pool_has(self@, key) && *session == pool_session(self@, key),
                    None => !pool_has(self@, key),
                }
            }),
    {
        let key = Self::key_for(server);
        match self.position(key.as_str()) {
            Some(i) => {
                proof {
                    lemma_pool_index(self@, key@, i as int);
                }
                Some(&self.connections[i].session)
            },
            None => None,
        }
    }

    /// Caches `session` for the endpoint of `server`, in place of a
    /// session cached for it before.
    pub fn store_connection(&mut self, server: &ServerDefinition, session: S)
        requires
            old(self).wf(),
        ensures
            final(self).wf(),
            final(self).config_spec() == old(self).config_spec(),
            ({
                let key = connection_key(server@.user, server@.host, server@.port);
                if pool_has(old(self)@, key) {
                    final(self)@ == old(self)@.update(pool_index(old(self)@, key), (key, session))
                } else {
                    final(self)@ == old(self)@.push((key, session))
                }
            }),
            pool_has(
                final(self)@,
                connection_key(server@.user, server@.host, server@.port),
            ),
            pool_session(final(self)@, connection_key(server@.user, server@.host, server@.port))
                == session,
    {
        let key = Self::key_for(server);
        let ghost k = key@;
        let ghost before = self@;
        match self.position(key.as_str()) {
            Some(i) => {
                proof {
                    lemma_pool_index(before, k, i as int);
                }
                self.connections.remove(i);
                self.connections.insert(i, PoolEntry { key, session });
                assert(self@ =~= before.update(i as int, (k, session)));
                assert forall|a: int, b: int| 0 <= a < b < self@.len() implies (
                #[trigger] self@[a]).0 != (#[trigger] self@[b]).0 by {
                    assert(self@[a].0 == before[a].0);
                    assert(self@[b].0 == before[b].0);
                }
                proof {
                    lemma_pool_index(self@, k, i as int);
                }
            },
            None => {
                self.connections.push(PoolEntry { key, session });
                assert(self@ =~= before.push((k, session)));
                assert forall|a: int, b: int| 0 <= a < b < self@.len() implies (
                #[trigger] self@[a]).0 != (#[trigger] self@[b]).0 by {
                    assert(self@[a] == before[a]);
                    if b < before.len() {
                        assert(self@[b] == before[b]);
                    }
                }
                proof {
                    lemma_pool_index(self@, k, before.len() as int);
                }
            },
        }
    }

    /// Drops the cached session for the endpoint of `server`, if there is
    /// one.
    pub fn disconnect(&mut self, server: &ServerDefinition)
        requires
            old(self).wf(),
        ensures
            final(self).wf(),
            final(self).config_spec() == old(self).config_spec(),
            ({
                let key = connection_key(server@.user, server@.host, server@.port);
                &&& !pool_has(final(self)@, key)
                &&& if pool_has(old(self)@, key) {
                    final(self)@ == old(self)@.remove(pool_index(old(self)@, key))
                } else {
                    final(self)@ == old(self)@
                }
            }),
    {
        let key = Self::key_for(server);
        let ghost k = key@;
        let ghost before = self@;
        match self.position(key.as_str()) {
            Some(i) => {
                proof {
                    lemma_pool_index(before, k, i as int);
                }
                self.connections.remove(i);
                assert(self@ =~= before.remove(i as int));
                assert forall|a: int| 0 <= a < self@.len() implies #[trigger] self@[a]
                    == before[if a < i {
                    a
                } else {
                    a + 1
                }] by {}
                assert forall|a: int, b: int| 0 <= a < b < self@.len() implies (
                #[trigger] self@[a]).0 != (#[trigger] self@[b]).0 by {
                    let x = if a < i {
                        a
                    } else {
                        a + 1
                    };
                    let y = if b < i {
                        b
                    } else {
                        b + 1
                    };
                    assert(before[x].0 != before[y].0);
                }
                assert(!pool_has(self@, k)) by {
                    assert forall|a: int| 0 <= a < self@.len() implies (#[trigger] self@[a]).0
                        != k by {
                        let x = if a < i {
                            a
                        } else {
                            a + 1
                        };
                        if x < i {
                            assert(before[x].0 != before[i as int].0);
                        } else {
                            assert(before[i as int].0 != before[x].0);
                        }
                    }
                }
            },
            None => {},
        }
    }

    /// Drops every cached session.
    pub fn disconnect_all(&mut self)
        ensures
            final(self)@ == Seq::<(Seq<char>, S)>::empty(),
            final(self).config_spec() == old(self).config_spec(),
            final(self).wf(),
    {
        self.connections.clear();
        assert(self@ =~= Seq::<(Seq<char>, S)>::empty());
    }
}

/// Storing a session leaves the sessions of all other endpoints as they
/// were.
pub proof fn lemma_store_keeps_others<S>(
    before: Seq<(Seq<char>, S)>,
    key: Seq<char>,
    session: S,
    other: Seq<char>,
)
    requires
        pool_distinct(before),
        other != key,
    ensures
        ({
            let after = if pool_has(before, key) {
                before.update(pool_index(before, key), (key, session))
            } else {
                before.push((key, session))
            };
            &&& pool_has(after, other) == pool_has(before, other)
            &&& pool_has(before, other) ==> pool_session(after, other) == pool_session(
                before,
                other,
            )
        }),
{
    let after = if pool_has(before, key) {
        before.update(pool_index(before, key), (key, session))
    } else {
        before.push((key, session))
    };
    assert forall|a: int| 0 <= a < after.len() implies (#[trigger] after[a]).0 == (if a
        < before.len() {
        before[a].0
    } else {
        key
    }) by {}
    assert forall|a: int, b: int| 0 <= a < b < after.len() implies (#[trigger] after[a]).0 != (
    #[trigger] after[b]).0 by {
        if b < before.len() {
            assert(before[a].0 != before[b].0);
        } else {
            assert(before[a].0 != key);
        }
    }
    if pool_has(before, other) {
        let i = pool_index(before, other);
        assert(after[i].0 == other);
        assert(after[i] == before[i]);
        lemma_pool_index(after, other, i);
    }
    if pool_has(after, other) {
        let i = pool_index(after, other);
        assert(before[i].0 == other);
    }
}

} // verus!
