//! The singleton server configuration: the upstream endpoint and credential.
//! The resolver picks the earliest-created row; an upsert updates it in place
//! or creates the first row.
use vstd::prelude::*;

verus! {

use crate::ids::generate_id;
use crate::ids::now_rfc3339;
use crate::text::str_eq;

#[derive(Debug)]
pub struct ServerConfig {
    pub endpoint: String,
    pub api_key: String,
}

impl Clone for ServerConfig {
    fn clone(&self) -> (res: Self)
        ensures
            res == *self,
    {
        ServerConfig { endpoint: self.endpoint.clone(), api_key: self.api_key.clone() }
    }
}

#[derive(Debug)]
pub struct ServerConfigRecord {
    pub id: String,
    pub endpoint: String,
    pub api_key: String,
    pub created_at: String,
    pub updated_at: Option<String>,
}

impl Clone for ServerConfigRecord {
    fn clone(&self) -> (res: Self)
        ensures
            res == *self,
    {
        ServerConfigRecord {
            id: self.id.clone(),
            endpoint: self.endpoint.clone(),
            api_key: self.api_key.clone(),
            created_at: self.created_at.clone(),
            updated_at: match &self.updated_at {
                Some(s) => Some(s.clone()),
                None => None,
            },
        }
    }
}

impl ServerConfigRecord {
    pub fn to_model(&self) -> (r: ServerConfig)
        ensures
            r.endpoint == self.endpoint,
            r.api_key == self.api_key,
    {
        ServerConfig { endpoint: self.endpoint.clone(), api_key: self.api_key.clone() }
    }
}

/// Position of the first row carrying the given id, if any.
pub open spec fn spec_find_pos(rows: Seq<ServerConfigRecord>, id: Seq<char>) -> Option<int>
    decreases rows.len(),
{
    if rows.len() == 0 {
        None
    } else if rows.first().id@ == id {
        Some(0)
    } else {
        match spec_find_pos(rows.drop_first(), id) {
            Some(p) => Some(p + 1),
            None => None,
        }
    }
}

/// The first row carrying the given id, if any.
pub open spec fn spec_find_config(rows: Seq<ServerConfigRecord>, id: Seq<char>) -> Option<
    ServerConfigRecord,
> {
    match spec_find_pos(rows, id) {
        Some(p) => Some(rows[p]),
        None => None,
    }
}

/// `spec_find_pos` looks past any prefix free of the id.
proof fn lemma_find_pos_skip(rows: Seq<ServerConfigRecord>, id: Seq<char>, i: int)
    requires
        0 <= i <= rows.len(),
        forall|k: int| 0 <= k < i ==> #[trigger] rows[k].id@ != id,
    ensures
        spec_find_pos(rows, id) == match spec_find_pos(rows.skip(i), id) {
            Some(p) => Some(p + i),
            None => None::<int>,
        },
    decreases i,
{
    if i > 0 {
        lemma_find_pos_skip(rows, id, i - 1);
        assert(rows.skip(i - 1).first() == rows[i - 1]);
        assert(rows.skip(i - 1).drop_first() =~= rows.skip(i));
    } else {
        assert(rows.skip(0) =~= rows);
    }
}

/// Rows found by `spec_find_pos` really carry the id and are the first to do
/// so.
pub proof fn lemma_find_pos_properties(rows: Seq<ServerConfigRecord>, id: Seq<char>)
    ensures
        match spec_find_pos(rows, id) {
            Some(p) => 0 <= p < rows.len() && rows[p].id@ == id && (forall|k: int|
                0 <= k < p ==> #[trigger] rows[k].id@ != id),
            None => forall|k: int| 0 <= k < rows.len() ==> #[trigger] rows[k].id@ != id,
        },
    decreases rows.len(),
{
    if rows.len() > 0 && rows.first().id@ != id {
        let rest = rows.drop_first();
        lemma_find_pos_properties(rest, id);
        match spec_find_pos(rest, id) {
            Some(p) => {
                assert(rows[p + 1] == rest[p]);
                assert forall|k: int| 0 <= k < p + 1 implies #[trigger] rows[k].id@ != id by {
                    if k > 0 {
                        assert(rows[k] == rest[k - 1]);
                    }
                }
            },
            None => {
                assert forall|k: int| 0 <= k < rows.len() implies #[trigger] rows[k].id@ != id by {
                    if k > 0 {
                        assert(rows[k] == rest[k - 1]);
                    }
                }
            },
        }
    }
}

/// The stored configuration rows, in creation order: the first row is the
/// earliest created and serves as the configuration in force.
pub struct ConfigStore {
    pub rows: Vec<ServerConfigRecord>,
}

impl ConfigStore {
    pub fn new() -> (r: ConfigStore)
        ensures
            r.rows@.len() == 0,
    {
        ConfigStore { rows: Vec::new() }
    }

    /// Every stored row, in creation order.
    pub fn get_all_configs(&self) -> (r: Vec<ServerConfigRecord>)
        ensures
            r@ == self.rows@,
    {
        let n = self.rows.len();
        let mut out: Vec<ServerConfigRecord> = Vec::new();
        let mut i: usize = 0;
        while i < n
            invariant
                i <= n,
                n == self.rows@.len(),
                out@ =~= self.rows@.take(i as int),
            decreases n - i,
        {
            out.push(self.rows[i].clone());
            proof {
                assert(out@ =~= self.rows@.take(i + 1));
            }
            i += 1;
        }
        proof {
            assert(out@ =~= self.rows@);
        }
        out
    }

    /// The first row carrying the given id, if any.
    pub fn get_config_by_id(&self, id: &str) -> (r: Option<ServerConfigRecord>)
        ensures
            r == spec_find_config(self.rows@, id@),
    {
        let n = self.rows.len();
        let mut i: usize = 0;
        while i < n
            invariant
                i <= n,
                n == self.rows@.len(),
                forall|k: int| 0 <= k < i ==> #[trigger] self.rows@[k].id@ != id@,
            decreases n - i,
        {
            if str_eq(self.rows[i].id.as_str(), id) {
                proof {
                    lemma_find_pos_skip(self.rows@, id@, i as int);
                    assert(self.rows@.skip(i as int).first() == self.rows@[i as int]);
                }
                return Some(self.rows[i].clone());
            }
            i += 1;
        }
        proof {
            lemma_find_pos_skip(self.rows@, id@, n as int);
            assert(self.rows@.skip(n as int) =~= Seq::<ServerConfigRecord>::empty());
        }
        None
    }

    /// The configuration in force: the earliest-created row.
    pub fn get_default_config(&self) -> (r: Option<ServerConfigRecord>)
        ensures
            self.rows@.len() == 0 ==> r is None,
            self.rows@.len() > 0 ==> r == Some(self.rows@[0]),
    {
        if self.rows.len() == 0 {
            None
        } else {
            Some(self.rows[0].clone())
        }
    }

    /// The resolver used by the forwarding engine; `None` means every route
    /// short-circuits with the configuration-missing error.
    pub fn get_server_config(&self) -> (r: Option<ServerConfigRecord>)
        ensures
            self.rows@.len() == 0 ==> r is None,
            self.rows@.len() > 0 ==> r == Some(self.rows@[0]),
    {
        self.get_default_config()
    }

    /// The configuration as reported to the admin surface: empty strings
    /// when nothing is configured yet.
    pub fn get_current_server_config(&self) -> (r: ServerConfig)
        ensures
            self.rows@.len() > 0 ==> r.endpoint == self.rows@[0].endpoint && r.api_key
                == self.rows@[0].api_key,
            self.rows@.len() == 0 ==> r.endpoint@.len() == 0 && r.api_key@.len() == 0,
    {
        match self.get_default_config() {
            Some(c) => ServerConfig { endpoint: c.endpoint, api_key: c.api_key },
            None => ServerConfig { endpoint: String::new(), api_key: String::new() },
        }
    }

    /// Appends a new configuration row with a fresh id of the shape
    /// `config_` followed by 32 lower-case hex digits; existing rows (and so
    /// the configuration in force, if any) are untouched.
    pub fn create_config(&mut self, config: &ServerConfig) -> (r: ServerConfigRecord)
        ensures
            final(self).rows@.len() == old(self).rows@.len() + 1,
            final(self).rows@.drop_last() == old(self).rows@,
            final(self).rows@.last().endpoint == config.endpoint,
            final(self).rows@.last().api_key == config.api_key,
            final(self).rows@.last().updated_at is None,
            final(self).rows@.last().id@.len() == 39,
            final(self).rows@.last().id@.subrange(0, 7) == "config_"@,
            forall|i: int|
                7 <= i < 39 ==> crate::ids::is_hex_lower(#[trigger] (final(self).rows@.last().id@[i])),
            r == final(self).rows@.last(),
    {
        let row = ServerConfigRecord {
            id: generate_id("config"),
            endpoint: config.endpoint.clone(),
            api_key: config.api_key.clone(),
            created_at: now_rfc3339(),
            updated_at: None,
        };
        proof {
            reveal_strlit("config");
            reveal_strlit("config_");
            assert(row.id@.subrange(0, 7) =~= "config_"@);
        }
        let out = row.clone();
        self.rows.push(row);
        proof {
            assert(self.rows@.drop_last() =~= old(self).rows@);
        }
        out
    }

    /// Replaces endpoint and credential of the first row carrying the id,
    /// stamping it updated; `None` and no change when no row carries it.
    pub fn update_config(&mut self, id: &str, config: &ServerConfig) -> (r: Option<
        ServerConfigRecord,
    >)
        ensures
            spec_find_pos(old(self).rows@, id@) is None ==> final(self).rows == old(self).rows && r
                is None,
            spec_find_pos(old(self).rows@, id@) matches Some(p) ==> {
                &&& final(self).rows@.len() == old(self).rows@.len()
                &&& final(self).rows@[p].id == old(self).rows@[p].id
                &&& final(self).rows@[p].endpoint == config.endpoint
                &&& final(self).rows@[p].api_key == config.api_key
                &&& final(self).rows@[p].created_at == old(self).rows@[p].created_at
                &&& final(self).rows@[p].updated_at is Some
                &&& (forall|k: int|
                    0 <= k < old(self).rows@.len() && k != p ==> final(self).rows@[k] == old(
                        self,
                    ).rows@[k])
                &&& r == Some(final(self).rows@[p])
            },
    {
        let n = self.rows.len();
        let mut i: usize = 0;
        while i < n
            invariant
                i <= n,
                n == self.rows@.len(),
                self.rows == old(self).rows,
                forall|k: int| 0 <= k < i ==> #[trigger] self.rows@[k].id@ != id@,
            decreases n - i,
        {
            if str_eq(self.rows[i].id.as_str(), id) {
                proof {
                    lemma_find_pos_skip(self.rows@, id@, i as int);
                    assert(self.rows@.skip(i as int).first() == self.rows@[i as int]);
                }
                let row = ServerConfigRecord {
                    id: self.rows[i].id.clone(),
                    endpoint: config.endpoint.clone(),
                    api_key: config.api_key.clone(),
                    created_at: self.rows[i].created_at.clone(),
                    updated_at: Some(now_rfc3339()),
                };
                let out = row.clone();
                self.rows[i] = row;
                return Some(out);
            }
            i += 1;
        }
        proof {
            lemma_find_pos_skip(self.rows@, id@, n as int);
            assert(self.rows@.skip(n as int) =~= Seq::<ServerConfigRecord>::empty());
        }
        None
    }

    /// Removes every row carrying the id; reports whether any row did.
    pub fn delete_config(&mut self, id: &str) -> (r: bool)
        ensures
            final(self).rows@ == old(self).rows@.filter(
                |rec: ServerConfigRecord| rec.id@ != id@,
            ),
            r == (spec_find_pos(old(self).rows@, id@) is Some),
    {
        let n = self.rows.len();
        let mut out: Vec<ServerConfigRecord> = Vec::new();
        let mut found = false;
        let mut i: usize = 0;
        while i < n
            invariant
                i <= n,
                n == self.rows@.len(),
                out@ == self.rows@.take(i as int).filter(
                    |rec: ServerConfigRecord| rec.id@ != id@,
                ),
                found == exists|k: int| 0 <= k < i && #[trigger] self.rows@[k].id@ == id@,
            decreases n - i,
        {
            proof {
                reveal(Seq::filter);
                assert(self.rows@.take(i + 1).drop_last() =~= self.rows@.take(i as int));
                assert(self.rows@.take(i + 1).last() == self.rows@[i as int]);
            }
            if str_eq(self.rows[i].id.as_str(), id) {
                found = true;
            } else {
                out.push(self.rows[i].clone());
            }
            proof {
                assert(out@ =~= self.rows@.take(i + 1).filter(
                    |rec: ServerConfigRecord| rec.id@ != id@,
                ));
            }
            i += 1;
        }
        proof {
            assert(self.rows@.take(n as int) =~= self.rows@);
            lemma_find_pos_properties(self.rows@, id@);
        }
        self.rows = out;
        found
    }

    /// Whether some row carries the id.
    pub fn config_exists(&self, id: &str) -> (r: bool)
        ensures
            r == (spec_find_pos(self.rows@, id@) is Some),
    {
        match self.get_config_by_id(id) {
            Some(_) => true,
            None => false,
        }
    }

    /// How many configuration rows exist.
    pub fn count_configs(&self) -> (r: i64)
        requires
            self.rows@.len() <= 0x7fff_ffff_ffff_ffff,
        ensures
            r == self.rows@.len(),
    {
        self.rows.len() as i64
    }

    /// The upsert behind the admin route: updates the configuration in force
    /// in place — same row, same id, same creation time — or creates the
    /// first row when none exists. Either way the configuration in force
    /// afterwards carries the given endpoint and credential, and every other
    /// row is untouched.
    pub fn update_server_config(&mut self, config: &ServerConfig) -> (r: ServerConfig)
        ensures
            final(self).rows@.len() == if old(self).rows@.len() == 0 {
                1int
            } else {
                old(self).rows@.len() as int
            },
            final(self).rows@[0].endpoint == config.endpoint,
            final(self).rows@[0].api_key == config.api_key,
            old(self).rows@.len() > 0 ==> final(self).rows@[0].id == old(self).rows@[0].id
                && final(self).rows@[0].created_at == old(self).rows@[0].created_at,
            forall|k: int|
                1 <= k < old(self).rows@.len() ==> final(self).rows@[k] == old(self).rows@[k],
            r.endpoint == config.endpoint,
            r.api_key == config.api_key,
    {
        if self.rows.len() == 0 {
            let rec = self.create_config(config);
            proof {
                assert(self.rows@[0] == self.rows@.last());
            }
            ServerConfig { endpoint: rec.endpoint, api_key: rec.api_key }
        } else {
            let id = self.rows[0].id.clone();
            proof {
                assert(self.rows@.first().id@ == id@);
            }
            let updated = self.update_config(id.as_str(), config);
            match updated {
                Some(rec) => ServerConfig { endpoint: rec.endpoint, api_key: rec.api_key },
                None => {
                    // Unreachable: the id was read from the first row.
                    proof {
                        assert(false);
                    }
                    ServerConfig { endpoint: config.endpoint.clone(), api_key: config.api_key.clone() }
                },
            }
        }
    }
}

} // verus!
