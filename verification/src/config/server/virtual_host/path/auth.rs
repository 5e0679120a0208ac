//! Basic authentication configuration: users, hashing algorithm and htpasswd file.

use vstd::prelude::*;

use crate::config::server::virtual_host::path_exists;
use crate::errors::{ConfigError, VetisError};
use crate::text::{lines, lines_spec, split_once_char, split_once_spec};

verus! {

/// Password hashing algorithms.
#[derive(Clone, Copy, Debug, PartialEq, Eq, Structural)]
pub enum Algorithm {
    /// bcrypt
    BCrypt,
    /// Argon2
    Argon2,
}

/// The user entries as text.
pub open spec fn user_pairs(users: Seq<(String, String)>) -> Seq<(Seq<char>, Seq<char>)> {
    users.map_values(|u: (String, String)| (u.0@, u.1@))
}

/// The user table the entries make when inserted in order: a later entry for a
/// user replaces an earlier one.
pub open spec fn users_map(pairs: Seq<(Seq<char>, Seq<char>)>) -> Map<Seq<char>, Seq<char>>
    decreases pairs.len(),
{
    if pairs.len() == 0 {
        Map::empty()
    } else {
        users_map(pairs.drop_last()).insert(pairs.last().0, pairs.last().1)
    }
}

/// The entries of an htpasswd file: one per line, the user before the first ':'
/// and the hash after it.
pub open spec fn htpasswd_entries(content: Seq<char>) -> Seq<(Seq<char>, Seq<char>)> {
    lines_spec(content).map_values(
        |line: Seq<char>|
            match split_once_spec(line, ':') {
                Some(parts) => parts,
                None => (line, Seq::empty()),
            },
    )
}

/// Every line of an htpasswd file names a user and a hash, separated by ':'.
pub open spec fn htpasswd_well_formed(content: Seq<char>) -> bool {
    forall|i: int|
        0 <= i < lines_spec(content).len() ==> #[trigger] split_once_spec(
            lines_spec(content)[i],
            ':',
        ).is_some()
}

/// What a basic authentication configuration holds.
pub struct BasicAuthSettings {
    pub users: Map<Seq<char>, Seq<char>>,
    pub algorithm: Algorithm,
    pub htpasswd: Option<Seq<char>>,
}

/// Looks up the hash stored for `name`.
pub fn find_user<'a>(users: &'a Vec<(String, String)>, name: &str) -> (res: Option<&'a String>)
    ensures
        match res {
            Some(h) => users_map(user_pairs(users@)).contains_key(name@) && users_map(
                user_pairs(users@),
            )[name@] == h@,
            None => !users_map(user_pairs(users@)).contains_key(name@),
        },
{
    let ghost p = user_pairs(users@);
    let key = name.to_owned();
    let mut j = users.len();
    proof {
        assert(p.take(j as int) =~= p);
    }
    while j > 0
        invariant
            j <= users@.len(),
            p == user_pairs(users@),
            key@ == name@,
            users_map(p).contains_key(name@) == users_map(p.take(j as int)).contains_key(name@),
            users_map(p).contains_key(name@) ==> users_map(p)[name@] == users_map(
                p.take(j as int),
            )[name@],
        decreases j,
    {
        proof {
            assert(p.take(j as int).drop_last() =~= p.take(j - 1));
            assert(p.take(j as int).last() == p[j - 1]);
        }
        if users[j - 1].0 == key {
            return Some(&users[j - 1].1);
        }
        j = j - 1;
    }
    proof {
        assert(p.take(0) =~= Seq::<(Seq<char>, Seq<char>)>::empty());
    }
    None
}

/// The user table `m` after inserting the entries in order.
pub open spec fn insert_all(m: Map<Seq<char>, Seq<char>>, entries: Seq<(Seq<char>, Seq<char>)>) -> Map<
    Seq<char>,
    Seq<char>,
>
    decreases entries.len(),
{
    if entries.len() == 0 {
        m
    } else {
        insert_all(m, entries.drop_last()).insert(entries.last().0, entries.last().1)
    }
}

/// Appending entries inserts them into the table of the earlier ones.
pub proof fn lemma_users_map_append(a: Seq<(Seq<char>, Seq<char>)>, b: Seq<(Seq<char>, Seq<char>)>)
    ensures
        users_map(a + b) == insert_all(users_map(a), b),
    decreases b.len(),
{
    if b.len() == 0 {
        assert(a + b =~= a);
    } else {
        lemma_users_map_append(a, b.drop_last());
        assert((a + b).drop_last() =~= a + b.drop_last());
        assert((a + b).last() == b.last());
    }
}

/// Builder for creating `BasicAuthConfig` instances.
pub struct BasicAuthConfigBuilder {
    users: Vec<(String, String)>,
    algorithm: Algorithm,
    htpasswd: Option<String>,
}

impl View for BasicAuthConfigBuilder {
    type V = BasicAuthSettings;

    closed spec fn view(&self) -> BasicAuthSettings {
        BasicAuthSettings {
            users: users_map(user_pairs(self.users@)),
            algorithm: self.algorithm,
            htpasswd: match self.htpasswd {
                Some(p) => Some(p@),
                None => None,
            },
        }
    }
}

impl BasicAuthConfigBuilder {
    /// Sets the users and their password hashes; a later entry for a user wins.
    pub fn users(self, users: Vec<(String, String)>) -> (res: Self)
        ensures
            res@ == (BasicAuthSettings { users: users_map(user_pairs(users@)), ..self@ }),
    {
        let mut b = self;
        b.users = users;
        b
    }

    /// Sets the hashing algorithm of the stored passwords.
    pub fn algorithm(self, algorithm: Algorithm) -> (res: Self)
        ensures
            res@ == (BasicAuthSettings { algorithm: algorithm, ..self@ }),
    {
        let mut b = self;
        b.algorithm = algorithm;
        b
    }

    /// Sets the path of the htpasswd file.
    pub fn htpasswd(self, htpasswd: Option<String>) -> (res: Self)
        ensures
            res@ == (BasicAuthSettings {
                htpasswd: match htpasswd {
                    Some(p) => Some(p@),
                    None => None,
                },
                ..self@
            }),
    {
        let mut b = self;
        b.htpasswd = htpasswd;
        b
    }

    /// Adds the users of htpasswd file content, one `user:hash` per line, in order.
    pub fn add_htpasswd_users(self, content: &str) -> (res: Self)
        requires
            htpasswd_well_formed(content@),
        ensures
            res@.algorithm == self@.algorithm,
            res@.htpasswd == self@.htpasswd,
            res@.users == insert_all(self@.users, htpasswd_entries(content@)),
    {
        let mut b = self;
        let all = lines(content);
        let ghost ls = lines_spec(content@);
        let ghost start = user_pairs(b.users@);
        let mut i: usize = 0;
        proof {
            assert(start + htpasswd_entries(content@).take(0) =~= start);
        }
        while i < all.len()
            invariant
                all@.map_values(|l: String| l@) == ls,
                ls == lines_spec(content@),
                htpasswd_well_formed(content@),
                i <= all@.len(),
                user_pairs(b.users@) == start + htpasswd_entries(content@).take(i as int),
                b.algorithm == self.algorithm,
                b.htpasswd == self.htpasswd,
            decreases all@.len() - i,
        {
            assert(ls[i as int] == all@[i as int]@);
            let parts = split_once_char(all[i].as_str(), ':');
            assert(split_once_spec(ls[i as int], ':').is_some());
            match parts {
                Some((name, hash)) => {
                    let ghost before = b.users@;
                    b.users.push((name, hash));
                    proof {
                        assert(htpasswd_entries(content@).take(i + 1) =~= htpasswd_entries(
                            content@,
                        ).take(i as int).push((name@, hash@)));
                        assert(user_pairs(b.users@) =~= user_pairs(before).push((name@, hash@)));
                    }
                },
                None => {},
            }
            i = i + 1;
        }
        proof {
            assert(htpasswd_entries(content@).take(i as int) =~= htpasswd_entries(content@));
            lemma_users_map_append(start, htpasswd_entries(content@));
        }
        b
    }

    /// Creates the `BasicAuthConfig`, given whether the htpasswd file exists.
    pub fn build_for_file(self, htpasswd_exists: bool) -> (res: Result<BasicAuthConfig, VetisError>)
        ensures
            self@.htpasswd.is_some() && !htpasswd_exists ==> (res matches Err(
                VetisError::Config(ConfigError::Auth(m)),
            ) && m@ == ".htpasswd file not found"@),
            self@.htpasswd.is_none() || htpasswd_exists ==> (res matches Ok(c) && c@ == self@),
    {
        if self.htpasswd.is_some() && !htpasswd_exists {
            return Err(VetisError::Config(ConfigError::Auth(".htpasswd file not found".to_owned())));
        }
        Ok(BasicAuthConfig { users: self.users, algorithm: self.algorithm, htpasswd: self.htpasswd })
    }

    /// Creates the `BasicAuthConfig`, checking on disk that the htpasswd file exists.
    pub fn build(self) -> (res: Result<BasicAuthConfig, VetisError>)
        ensures
            self@.htpasswd.is_none() ==> (res matches Ok(c) && c@ == self@),
            self@.htpasswd.is_some() ==> ((res matches Err(VetisError::Config(ConfigError::Auth(m)))
                && m@ == ".htpasswd file not found"@) || (res matches Ok(c) && c@ == self@)),
    {
        let exists = match &self.htpasswd {
            Some(path) => path_exists(path.as_str()),
            None => false,
        };
        self.build_for_file(exists)
    }
}

/// Basic authentication configuration.
#[derive(Clone)]
pub struct BasicAuthConfig {
    users: Vec<(String, String)>,
    algorithm: Algorithm,
    htpasswd: Option<String>,
}

impl View for BasicAuthConfig {
    type V = BasicAuthSettings;

    closed spec fn view(&self) -> BasicAuthSettings {
        BasicAuthSettings {
            users: users_map(user_pairs(self.users@)),
            algorithm: self.algorithm,
            htpasswd: match self.htpasswd {
                Some(p) => Some(p@),
                None => None,
            },
        }
    }
}

impl BasicAuthConfig {
    /// Creates a builder with no users, bcrypt and no htpasswd file.
    pub fn builder() -> (res: BasicAuthConfigBuilder)
        ensures
            res@ == (BasicAuthSettings {
                users: Map::empty(),
                algorithm: Algorithm::BCrypt,
                htpasswd: None,
            }),
    {
        BasicAuthConfigBuilder { users: Vec::new(), algorithm: Algorithm::BCrypt, htpasswd: None }
    }

    /// A copy of this configuration.
    pub fn duplicate(&self) -> (res: Self)
        ensures
            res@ == self@,
    {
        let mut users: Vec<(String, String)> = Vec::new();
        let mut i: usize = 0;
        while i < self.users.len()
            invariant
                i <= self.users@.len(),
                user_pairs(users@) == user_pairs(self.users@).take(i as int),
            decreases self.users@.len() - i,
        {
            let entry = &self.users[i];
            let name = entry.0.clone();
            let hash = entry.1.clone();
            let ghost before = users@;
            users.push((name, hash));
            proof {
                assert(users@ == before.push((name, hash)));
                assert(user_pairs(users@) =~= user_pairs(before).push((name@, hash@)));
                assert(user_pairs(self.users@)[i as int] == (name@, hash@));
                assert(user_pairs(users@) =~= user_pairs(self.users@).take(i + 1));
            }
            i = i + 1;
        }
        proof {
            assert(user_pairs(self.users@).take(i as int) =~= user_pairs(self.users@));
        }
        BasicAuthConfig {
            users,
            algorithm: self.algorithm,
            htpasswd: match &self.htpasswd {
                Some(p) => Some(p.clone()),
                None => None,
            },
        }
    }

    /// Returns the user entries; a later entry for a user replaces an earlier one.
    pub fn users(&self) -> (res: &Vec<(String, String)>)
        ensures
            users_map(user_pairs(res@)) == self@.users,
    {
        &self.users
    }

    /// Returns the hash stored for a user.
    pub fn user_hash(&self, name: &str) -> (res: Option<&String>)
        ensures
            match res {
                Some(h) => self@.users.contains_key(name@) && self@.users[name@] == h@,
                None => !self@.users.contains_key(name@),
            },
    {
        find_user(&self.users, name)
    }

    /// Returns the algorithm used for password hashing.
    pub fn algorithm(&self) -> (res: &Algorithm)
        ensures
            *res == self@.algorithm,
    {
        &self.algorithm
    }

    /// Returns the path to the htpasswd file.
    pub fn htpasswd(&self) -> (res: &Option<String>)
        ensures
            match *res {
                Some(p) => self@.htpasswd == Some(p@),
                None => self@.htpasswd.is_none(),
            },
    {
        &self.htpasswd
    }
}


/// A later entry for a user gives that user's hash, and leaves the other users as
/// they were.
pub proof fn law_later_entry_wins(
    pairs: Seq<(Seq<char>, Seq<char>)>,
    user: Seq<char>,
    hash: Seq<char>,
    other: Seq<char>,
)
    ensures
        users_map(pairs.push((user, hash))).contains_key(user),
        users_map(pairs.push((user, hash)))[user] == hash,
        other != user ==> users_map(pairs.push((user, hash))).contains_key(other) == users_map(
            pairs,
        ).contains_key(other),
        other != user && users_map(pairs).contains_key(other) ==> users_map(
            pairs.push((user, hash)),
        )[other] == users_map(pairs)[other],
{
    assert(pairs.push((user, hash)).drop_last() =~= pairs);
}

} // verus!
