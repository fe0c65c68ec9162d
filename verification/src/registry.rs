//! The command registry: an immutable allowlist from caller-supplied
//! keys to configured command lines.
//!
//! The registry is built once at startup and rejects a malformed table
//! then — duplicate keys, or a command line with no token at all — so
//! that no request-time lookup can fail for a configuration reason.

use vstd::prelude::*;
use crate::tokens::split_ws;

verus! {

/// One configured command: a lookup key bound to a raw command line.
pub struct CommandEntry {
    pub key: String,
    pub command: String,
}

/// The registry rows at the specification level: `(key, command line)`
/// as character sequences.
pub open spec fn rows_of(entries: Seq<CommandEntry>) -> Seq<(Seq<char>, Seq<char>)> {
    entries.map_values(|e: CommandEntry| (e.key@, e.command@))
}

/// No two rows share a key.
pub open spec fn keys_unique(rows: Seq<(Seq<char>, Seq<char>)>) -> bool {
    forall|i: int, j: int| 0 <= i < j < rows.len() ==> rows[i].0 != rows[j].0
}

/// Every row's command line has at least one token, so a found command
/// always names a program.
pub open spec fn commands_have_tokens(rows: Seq<(Seq<char>, Seq<char>)>) -> bool {
    forall|i: int| 0 <= i < rows.len() ==> split_ws(#[trigger] rows[i].1).len() > 0
}

/// The command bound to `key`: the first row whose key matches.
pub open spec fn lookup_in(rows: Seq<(Seq<char>, Seq<char>)>, key: Seq<char>) -> Option<Seq<char>>
    decreases rows.len(),
{
    if rows.len() == 0 {
        None
    } else if rows[0].0 == key {
        Some(rows[0].1)
    } else {
        lookup_in(rows.drop_first(), key)
    }
}

/// `lookup_in` finds exactly the keys that occur in the rows, and under
/// unique keys it returns the one command bound to the key.
pub proof fn lemma_lookup_in(rows: Seq<(Seq<char>, Seq<char>)>, key: Seq<char>)
    ensures
        lookup_in(rows, key) is Some <==> exists|i: int|
            0 <= i < rows.len() && (#[trigger] rows[i]).0 == key,
        lookup_in(rows, key) matches Some(c) ==> exists|i: int|
            0 <= i < rows.len() && (#[trigger] rows[i]).0 == key && rows[i].1 == c,
        keys_unique(rows) ==> forall|i: int|
            0 <= i < rows.len() && (#[trigger] rows[i]).0 == key ==> lookup_in(rows, key) == Some(
                rows[i].1,
            ),
    decreases rows.len(),
{
    if rows.len() == 0 {
    } else if rows[0].0 == key {
        assert(rows[0].0 == key);
    } else {
        lemma_lookup_in(rows.drop_first(), key);
        assert forall|i: int| 0 <= i < rows.len() && (#[trigger] rows[i]).0 == key implies exists|
            j: int,
        | 0 <= j < rows.drop_first().len() && (#[trigger] rows.drop_first()[j]).0 == key by {
            assert(rows.drop_first()[i - 1] == rows[i]);
        }
        if exists|j: int| 0 <= j < rows.drop_first().len() && (#[trigger] rows.drop_first()[j]).0
            == key {
            let j = choose|j: int|
                0 <= j < rows.drop_first().len() && (#[trigger] rows.drop_first()[j]).0 == key;
            assert(rows[j + 1] == rows.drop_first()[j]);
        }
        if keys_unique(rows) {
            assert forall|i: int, j: int| 0 <= i < j < rows.drop_first().len() implies (
            #[trigger] rows.drop_first()[i]).0 != (#[trigger] rows.drop_first()[j]).0 by {
                assert(rows.drop_first()[i] == rows[i + 1]);
                assert(rows.drop_first()[j] == rows[j + 1]);
            }
        }
    }
}

/// Why a configured table is rejected at startup.
#[derive(Clone, Copy, PartialEq, Eq, Structural, Debug)]
pub enum ConfigError {
    /// Two entries share the same key.
    DuplicateKey,
    /// An entry's command line holds no token at all.
    EmptyCommand,
}

/// The immutable command allowlist.
pub struct Registry {
    entries: Vec<CommandEntry>,
}

impl View for Registry {
    type V = Seq<(Seq<char>, Seq<char>)>;

    closed spec fn view(&self) -> Seq<(Seq<char>, Seq<char>)> {
        rows_of(self.entries@)
    }
}

impl Registry {
    /// A well-formed registry: unique keys and no token-free command.
    pub open spec fn wf(&self) -> bool {
        keys_unique(self@) && commands_have_tokens(self@)
    }

    /// Build the registry from the configured entries, failing fast on a
    /// malformed table: `EmptyCommand` exactly when some command line has
    /// no token, otherwise `DuplicateKey` exactly when two keys collide.
    pub fn build(entries: Vec<CommandEntry>) -> (r: Result<Registry, ConfigError>)
        ensures
            match r {
                Ok(reg) => reg@ == rows_of(entries@) && reg.wf(),
                Err(e) => match e {
                    ConfigError::EmptyCommand => !commands_have_tokens(rows_of(entries@)),
                    ConfigError::DuplicateKey => commands_have_tokens(rows_of(entries@))
                        && !keys_unique(rows_of(entries@)),
                },
            },
    {
        let ghost rows = rows_of(entries@);
        let n: usize = entries.len();
        let mut i: usize = 0;
        while i < n
            invariant
                n == entries.len(),
                rows == rows_of(entries@),
                0 <= i <= n,
                forall|k: int| 0 <= k < i ==> split_ws(#[trigger] rows[k].1).len() > 0,
            decreases n - i,
        {
            let toks = crate::tokens::split_whitespace_tokens(entries[i].command.as_str());
            if toks.len() == 0 {
                proof {
                    assert(rows[i as int].1 == entries@[i as int].command@);
                    assert(split_ws(rows[i as int].1).len() == toks.deep_view().len());
                }
                return Err(ConfigError::EmptyCommand);
            }
            proof {
                assert(split_ws(rows[i as int].1) == toks.deep_view());
            }
            i = i + 1;
        }
        let mut a: usize = 0;
        while a < n
            invariant
                n == entries.len(),
                rows == rows_of(entries@),
                0 <= a <= n,
                forall|p: int, q: int| 0 <= p < q < a ==> rows[p].0 != rows[q].0,
                commands_have_tokens(rows),
            decreases n - a,
        {
            let mut b: usize = 0;
            while b < a
                invariant
                    n == entries.len(),
                    rows == rows_of(entries@),
                    0 <= b <= a < n,
                    forall|p: int, q: int| 0 <= p < q < a ==> rows[p].0 != rows[q].0,
                    commands_have_tokens(rows),
                    forall|p: int| 0 <= p < b ==> rows[p].0 != rows[a as int].0,
                decreases a - b,
            {
                if entries[b].key == entries[a].key {
                    proof {
                        assert(rows[b as int].0 == rows[a as int].0);
                    }
                    return Err(ConfigError::DuplicateKey);
                }
                b = b + 1;
            }
            a = a + 1;
        }
        Ok(Registry { entries })
    }

    /// Look `key` up verbatim; a found entry carries the key itself and
    /// the bound command line.
    pub fn lookup(&self, key: &String) -> (r: Option<CommandEntry>)
        ensures
            match r {
                Some(e) => lookup_in(self@, key@) == Some(e.command@) && e.key@ == key@,
                None => lookup_in(self@, key@) is None,
            },
    {
        let n: usize = self.entries.len();
        let mut i: usize = 0;
        proof {
            assert(self@.skip(0) =~= self@);
        }
        while i < n
            invariant
                n == self.entries.len(),
                0 <= i <= n,
                lookup_in(self@, key@) == lookup_in(self@.skip(i as int), key@),
            decreases n - i,
        {
            proof {
                assert(self@[i as int] == (self.entries@[i as int].key@,
                self.entries@[i as int].command@));
                assert(self@.skip(i as int)[0] == self@[i as int]);
                assert(self@.skip(i as int).len() > 0);
            }
            if self.entries[i].key == *key {
                proof {
                    assert(lookup_in(self@.skip(i as int), key@) == Some(
                        self.entries@[i as int].command@,
                    ));
                }
                return Some(
                    CommandEntry {
                        key: self.entries[i].key.clone(),
                        command: self.entries[i].command.clone(),
                    },
                );
            }
            proof {
                assert(lookup_in(self@.skip(i as int), key@) == lookup_in(
                    self@.skip(i + 1),
                    key@,
                )) by {
                    assert(self@.skip(i as int).drop_first() =~= self@.skip(i + 1));
                }
            }
            i = i + 1;
        }
        proof {
            assert(self@.skip(n as int).len() == 0);
        }
        None
    }

    /// The full table, for publishing the allowlist to callers.
    pub fn table(&self) -> (r: &Vec<CommandEntry>)
        ensures
            rows_of(r@) == self@,
    {
        &self.entries
    }
}

/// Law: publishing the table and looking keys up agree exactly. Every
/// published row's key finds exactly its own command line, every
/// successful lookup is of some published row, and a key on no row
/// finds nothing — the published mapping is the registry, row for row.
pub proof fn lemma_table_lookup_round_trip(rows: Seq<(Seq<char>, Seq<char>)>, key: Seq<char>)
    requires
        keys_unique(rows),
    ensures
        forall|i: int| 0 <= i < rows.len() ==> lookup_in(rows, (#[trigger] rows[i]).0) == Some(
            rows[i].1,
        ),
        lookup_in(rows, key) matches Some(c) ==> exists|i: int|
            0 <= i < rows.len() && #[trigger] rows[i] == (key, c),
        (forall|i: int| 0 <= i < rows.len() ==> (#[trigger] rows[i]).0 != key) ==> lookup_in(
            rows,
            key,
        ) is None,
{
    assert forall|i: int| 0 <= i < rows.len() implies lookup_in(rows, (#[trigger] rows[i]).0)
        == Some(rows[i].1) by {
        lemma_lookup_in(rows, rows[i].0);
    }
    lemma_lookup_in(rows, key);
    if lookup_in(rows, key) is Some {
        let c = lookup_in(rows, key)->0;
        let i = choose|i: int| 0 <= i < rows.len() && (#[trigger] rows[i]).0 == key && rows[i].1 == c;
        assert(rows[i] == (key, c));
    }
}

} // verus!
