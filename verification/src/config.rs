//! The project-local configuration document.
//!
//! A parsed configuration is a tree of tables, strings and other scalars
//! with no fixed schema; the core recognises four lookup paths into it:
//! `dependencies`, `target.<triple>.dependencies`, `patch` and `package`.
//! Each lookup either returns the named value or reports absence; a missing
//! optional key never fails the document. Turning the on-disk text into this
//! tree is general parsing, done by an outside collaborator; the shell hands
//! the finished tree in as plain values.

use vstd::prelude::*;

verus! {

/// One node of a configuration document.
pub enum ConfigValue {
    /// A table of key/value pairs, in document order.
    Table(Vec<(String, ConfigValue)>),
    /// A string scalar.
    Str(String),
    /// Any other scalar or an array; the core never reads inside these.
    Other,
}

/// The value under `key` in a table: the first pair that carries `key`.
pub open spec fn spec_table_get(
    pairs: Seq<(String, ConfigValue)>,
    key: Seq<char>,
) -> Option<ConfigValue>
    decreases pairs.len(),
{
    if pairs.len() == 0 {
        None
    } else if pairs[0].0@ == key {
        Some(pairs[0].1)
    } else {
        spec_table_get(pairs.drop_first(), key)
    }
}

/// The value reached by descending tables along `path`; `None` as soon as a
/// component is missing or the node in hand is not a table.
pub open spec fn spec_lookup(v: ConfigValue, path: Seq<Seq<char>>) -> Option<ConfigValue>
    decreases path.len(),
{
    if path.len() == 0 {
        Some(v)
    } else {
        match v {
            ConfigValue::Table(pairs) => match spec_table_get(pairs@, path[0]) {
                Some(w) => spec_lookup(w, path.drop_first()),
                None => None,
            },
            _ => None,
        }
    }
}

/// The first pair of `pairs` that carries `key`, by reference.
fn table_get<'a>(pairs: &'a Vec<(String, ConfigValue)>, key: &String) -> (r: Option<
    &'a ConfigValue,
>)
    ensures
        match r {
            Some(v) => spec_table_get(pairs@, key@) == Some(*v),
            None => spec_table_get(pairs@, key@) is None,
        },
{
    let mut i: usize = 0;
    proof {
        assert(pairs@.skip(0) =~= pairs@);
    }
    while i < pairs.len()
        invariant
            i <= pairs@.len(),
            spec_table_get(pairs@, key@) == spec_table_get(pairs@.skip(i as int), key@),
        decreases pairs@.len() - i,
    {
        if pairs[i].0 == *key {
            proof {
                assert(pairs@.skip(i as int)[0] == pairs@[i as int]);
            }
            return Some(&pairs[i].1);
        }
        proof {
            assert(pairs@.skip(i as int)[0] == pairs@[i as int]);
            assert(pairs@.skip(i as int).drop_first() =~= pairs@.skip(i as int + 1));
        }
        i += 1;
    }
    None
}

/// A parsed project-local configuration document.
pub struct ConfigDocument {
    pub root: ConfigValue,
}

impl ConfigDocument {
    /// What this document holds under `path`.
    pub open spec fn spec_get(&self, path: Seq<Seq<char>>) -> Option<ConfigValue> {
        spec_lookup(self.root, path)
    }

    /// Descends tables along the components of `path`.
    pub fn lookup<'a>(&'a self, path: &Vec<String>) -> (r: Option<&'a ConfigValue>)
        ensures
            match r {
                Some(v) => self.spec_get(path.deep_view()) == Some(*v),
                None => self.spec_get(path.deep_view()) is None,
            },
    {
        let ghost full = path.deep_view();
        let mut cur: &ConfigValue = &self.root;
        let mut i: usize = 0;
        proof {
            assert(full.skip(0) =~= full);
        }
        while i < path.len()
            invariant
                i <= path@.len(),
                full == path.deep_view(),
                spec_lookup(self.root, full) == spec_lookup(*cur, full.skip(i as int)),
            decreases path@.len() - i,
        {
            match cur {
                ConfigValue::Table(pairs) => {
                    match table_get(pairs, &path[i]) {
                        Some(v) => {
                            proof {
                                assert(full.skip(i as int)[0] == path@[i as int]@);
                                assert(full.skip(i as int).drop_first() =~= full.skip(
                                    i as int + 1,
                                ));
                            }
                            cur = v;
                        },
                        None => {
                            proof {
                                assert(full.skip(i as int)[0] == path@[i as int]@);
                            }
                            return None;
                        },
                    }
                },
                _ => {
                    return None;
                },
            }
            i += 1;
        }
        proof {
            assert(full.skip(i as int) =~= Seq::<Seq<char>>::empty());
        }
        Some(cur)
    }

    /// The `dependencies` table of the document, when present.
    pub fn dependencies(&self) -> (r: Option<&ConfigValue>)
        ensures
            match r {
                Some(v) => self.spec_get(seq!["dependencies"@]) == Some(*v),
                None => self.spec_get(seq!["dependencies"@]) is None,
            },
    {
        let mut path: Vec<String> = Vec::new();
        path.push("dependencies".to_owned());
        proof {
            assert(path.deep_view() =~= seq!["dependencies"@]);
        }
        self.lookup(&path)
    }

    /// The `target.<target>.dependencies` override table, when present.
    /// The target triple is one component of the path, never re-split, so a
    /// triple may itself contain a dot.
    pub fn target_dependencies(&self, target: &str) -> (r: Option<&ConfigValue>)
        ensures
            match r {
                Some(v) => self.spec_get(seq!["target"@, target@, "dependencies"@]) == Some(*v),
                None => self.spec_get(seq!["target"@, target@, "dependencies"@]) is None,
            },
    {
        let mut path: Vec<String> = Vec::new();
        path.push("target".to_owned());
        path.push(target.to_owned());
        path.push("dependencies".to_owned());
        proof {
            assert(path.deep_view() =~= seq!["target"@, target@, "dependencies"@]);
        }
        self.lookup(&path)
    }

    /// The `patch` table of the document, when present.
    pub fn patch(&self) -> (r: Option<&ConfigValue>)
        ensures
            match r {
                Some(v) => self.spec_get(seq!["patch"@]) == Some(*v),
                None => self.spec_get(seq!["patch"@]) is None,
            },
    {
        let mut path: Vec<String> = Vec::new();
        path.push("patch".to_owned());
        proof {
            assert(path.deep_view() =~= seq!["patch"@]);
        }
        self.lookup(&path)
    }

    /// The `package` metadata table of the document, when present.
    pub fn package(&self) -> (r: Option<&ConfigValue>)
        ensures
            match r {
                Some(v) => self.spec_get(seq!["package"@]) == Some(*v),
                None => self.spec_get(seq!["package"@]) is None,
            },
    {
        let mut path: Vec<String> = Vec::new();
        path.push("package".to_owned());
        proof {
            assert(path.deep_view() =~= seq!["package"@]);
        }
        self.lookup(&path)
    }

    /// The `package.rust-src` declaration: present exactly when the package
    /// table holds a string under `rust-src`.
    pub fn rust_src(&self) -> (r: Option<&String>)
        ensures
            r matches Some(s) ==> (self.spec_get(seq!["package"@, "rust-src"@]) matches Some(
                ConfigValue::Str(v),
            ) && v == *s),
            r is None ==> !(self.spec_get(seq!["package"@, "rust-src"@]) matches Some(
                ConfigValue::Str(_),
            )),
    {
        let mut path: Vec<String> = Vec::new();
        path.push("package".to_owned());
        path.push("rust-src".to_owned());
        proof {
            assert(path.deep_view() =~= seq!["package"@, "rust-src"@]);
        }
        match self.lookup(&path) {
            Some(ConfigValue::Str(s)) => Some(s),
            _ => None,
        }
    }
}

} // verus!
