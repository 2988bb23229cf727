//! Site configuration: plain settings records, and the small fixed
//! category/type lookup tables every content module resolves labels and
//! route segments against.
//!
//! A lookup table is a list of `(id, path-segment, display-name)` rows,
//! loaded once at startup and never changed.  `lemma_category_round_trip`
//! states the round trip the routes depend on: resolving an id to its
//! path segment and that segment back yields the same id, provided the
//! segments are pairwise distinct.

use vstd::prelude::*;

verus! {

/// Command-line arguments of the server binary.
pub struct WebArgs {
    pub www_config: String,
    pub www_port: u16,
}

/// The site's outward identity.
pub struct Host {
    pub name: String,
    pub www: String,
    pub my_name: String,
    pub logo: String,
    pub icp: String,
    pub copyright: String,
    pub domain: String,
}

/// Where the relational store lives.
pub struct Database {
    pub url: String,
}

/// Where activation and reset mail is sent through.
pub struct EmailServer {
    pub stmp_server: String,
    pub stmp_user: String,
    pub stmp_password: String,
    pub stmp_from: String,
}

/// Settings of the article module.
pub struct Hu {
    pub content_type: Vec<(u8, String, String)>,
    pub category: Vec<(u8, String, String)>,
    pub page_size: u8,
}

/// Settings of the book module.
pub struct Book {
    pub content_type: Vec<(u8, String, String)>,
    pub category: Vec<(u8, String, String)>,
    pub upload_path: String,
    pub public_url: String,
    pub page_size: u8,
}

/// Settings of the micro-blog module.
pub struct Xi {
    pub content_type: Vec<(u8, String, String)>,
    pub category: Vec<(u8, String, String)>,
    pub page_size: u8,
}

/// Settings of the image gallery.
pub struct Image {
    pub upload_path: String,
    pub public_url: String,
    pub resize: Vec<(String, u32)>,
}

/// Settings of the user module.
pub struct User {
    pub upload_path: String,
    pub public_url: String,
}

/// Everything read from the configuration file at startup.
pub struct WebConfig {
    pub host: Host,
    pub database: Database,
    pub email: EmailServer,
    pub hu: Hu,
    pub book: Book,
    pub xi: Xi,
    pub image: Image,
    pub user: User,
}

/// First table row with the given path segment, if any.
pub open spec fn find_by_path(e: Seq<(u8, Seq<char>, Seq<char>)>, path: Seq<char>) -> Option<
    (u8, Seq<char>, Seq<char>),
>
    decreases e.len(),
{
    if e.len() == 0 {
        None
    } else if e[0].1 == path {
        Some(e[0])
    } else {
        find_by_path(e.skip(1), path)
    }
}

/// First table row with the given id, if any.
pub open spec fn find_by_id(e: Seq<(u8, Seq<char>, Seq<char>)>, id: u8) -> Option<
    (u8, Seq<char>, Seq<char>),
>
    decreases e.len(),
{
    if e.len() == 0 {
        None
    } else if e[0].0 == id {
        Some(e[0])
    } else {
        find_by_id(e.skip(1), id)
    }
}

/// A small fixed id ↔ path-segment ↔ display-name table.
pub trait CategoryType {
    /// The rows of the table, abstractly.
    spec fn entries(&self) -> Seq<(u8, Seq<char>, Seq<char>)>;

    /// Display name of a path segment.
    fn name(&self, path: &str) -> (r: Option<String>)
        ensures
            match find_by_path(self.entries(), path@) {
                Some(t) => r matches Some(s) && s@ == t.2,
                None => r is None,
            },
    ;

    /// Path segment and display name of an id.
    fn path_name(&self, id: u8) -> (r: Option<(String, String)>)
        ensures
            match find_by_id(self.entries(), id) {
                Some(t) => r matches Some(p) && p.0@ == t.1 && p.1@ == t.2,
                None => r is None,
            },
    ;

    /// Id of a path segment.
    fn id(&self, path: &str) -> (r: Option<u8>)
        ensures
            match find_by_path(self.entries(), path@) {
                Some(t) => r == Some(t.0),
                None => r is None,
            },
    ;
}

proof fn lemma_find_by_path_step(e: Seq<(u8, Seq<char>, Seq<char>)>, path: Seq<char>, i: int)
    requires
        0 <= i <= e.len(),
        forall|k: int| 0 <= k < i ==> e[k].1 != path,
    ensures
        find_by_path(e, path) == find_by_path(e.skip(i), path),
    decreases i,
{
    if i > 0 {
        assert(e.skip(1).skip(i - 1) =~= e.skip(i));
        lemma_find_by_path_step(e.skip(1), path, i - 1);
    } else {
        assert(e.skip(0) =~= e);
    }
}

proof fn lemma_find_by_id_step(e: Seq<(u8, Seq<char>, Seq<char>)>, id: u8, i: int)
    requires
        0 <= i <= e.len(),
        forall|k: int| 0 <= k < i ==> e[k].0 != id,
    ensures
        find_by_id(e, id) == find_by_id(e.skip(i), id),
    decreases i,
{
    if i > 0 {
        assert(e.skip(1).skip(i - 1) =~= e.skip(i));
        lemma_find_by_id_step(e.skip(1), id, i - 1);
    } else {
        assert(e.skip(0) =~= e);
    }
}

/// The abstract rows of the concrete table representation.
pub open spec fn vec_entries(v: Seq<(u8, String, String)>) -> Seq<(u8, Seq<char>, Seq<char>)> {
    v.map_values(|t: (u8, String, String)| (t.0, t.1@, t.2@))
}

impl CategoryType for Vec<(u8, String, String)> {
    open spec fn entries(&self) -> Seq<(u8, Seq<char>, Seq<char>)> {
        vec_entries(self@)
    }

    fn name(&self, path: &str) -> (r: Option<String>) {
        let p = path.to_owned();
        let mut i: usize = 0;
        while i < self.len()
            invariant
                p@ == path@,
                i <= self@.len(),
                forall|k: int| 0 <= k < i ==> vec_entries(self@)[k].1 != path@,
            decreases self@.len() - i,
        {
            if self[i].1.eq(&p) {
                proof {
                    lemma_find_by_path_step(self.entries(), path@, i as int);
                    assert(self.entries().skip(i as int)[0] == self.entries()[i as int]);
                }
                return Some(self[i].2.clone());
            }
            i = i + 1;
        }
        proof {
            lemma_find_by_path_step(self.entries(), path@, i as int);
            assert(self.entries().skip(i as int) =~= Seq::<(u8, Seq<char>, Seq<char>)>::empty());
        }
        None
    }

    fn path_name(&self, id: u8) -> (r: Option<(String, String)>) {
        let mut i: usize = 0;
        while i < self.len()
            invariant
                i <= self@.len(),
                forall|k: int| 0 <= k < i ==> vec_entries(self@)[k].0 != id,
            decreases self@.len() - i,
        {
            if self[i].0 == id {
                proof {
                    lemma_find_by_id_step(self.entries(), id, i as int);
                    assert(self.entries().skip(i as int)[0] == self.entries()[i as int]);
                }
                return Some((self[i].1.clone(), self[i].2.clone()));
            }
            i = i + 1;
        }
        proof {
            lemma_find_by_id_step(self.entries(), id, i as int);
            assert(self.entries().skip(i as int) =~= Seq::<(u8, Seq<char>, Seq<char>)>::empty());
        }
        None
    }

    fn id(&self, path: &str) -> (r: Option<u8>) {
        let p = path.to_owned();
        let mut i: usize = 0;
        while i < self.len()
            invariant
                p@ == path@,
                i <= self@.len(),
                forall|k: int| 0 <= k < i ==> vec_entries(self@)[k].1 != path@,
            decreases self@.len() - i,
        {
            if self[i].1.eq(&p) {
                proof {
                    lemma_find_by_path_step(self.entries(), path@, i as int);
                    assert(self.entries().skip(i as int)[0] == self.entries()[i as int]);
                }
                return Some(self[i].0);
            }
            i = i + 1;
        }
        proof {
            lemma_find_by_path_step(self.entries(), path@, i as int);
            assert(self.entries().skip(i as int) =~= Seq::<(u8, Seq<char>, Seq<char>)>::empty());
        }
        None
    }
}

/// No two rows share a path segment.
pub open spec fn distinct_paths(e: Seq<(u8, Seq<char>, Seq<char>)>) -> bool {
    forall|i: int, j: int| 0 <= i < j < e.len() ==> e[i].1 != e[j].1
}

proof fn lemma_find_by_id_mem(e: Seq<(u8, Seq<char>, Seq<char>)>, id: u8)
    requires
        find_by_id(e, id) is Some,
    ensures
        exists|j: int| 0 <= j < e.len() && e[j] == find_by_id(e, id)->Some_0,
        find_by_id(e, id)->Some_0.0 == id,
    decreases e.len(),
{
    if e.len() > 0 {
        if e[0].0 == id {
        } else {
            lemma_find_by_id_mem(e.skip(1), id);
            let j = choose|j: int| 0 <= j < e.skip(1).len() && e.skip(1)[j] == find_by_id(
                e.skip(1),
                id,
            )->Some_0;
            assert(e[j + 1] == e.skip(1)[j]);
        }
    }
}

/// The round trip the routes rely on: in a table whose path segments are
/// pairwise distinct, resolving an id to its path segment and that
/// segment back yields the same id.
pub proof fn lemma_category_round_trip(e: Seq<(u8, Seq<char>, Seq<char>)>, id: u8)
    requires
        distinct_paths(e),
        find_by_id(e, id) is Some,
    ensures
        find_by_path(e, find_by_id(e, id)->Some_0.1) matches Some(t) && t.0 == id,
    decreases e.len(),
{
    let found = find_by_id(e, id)->Some_0;
    if e.len() > 0 {
        if e[0].0 == id {
            assert(find_by_path(e, found.1) == Some(e[0]));
        } else {
            lemma_find_by_id_mem(e.skip(1), id);
            let j = choose|j: int| 0 <= j < e.skip(1).len() && e.skip(1)[j] == find_by_id(
                e.skip(1),
                id,
            )->Some_0;
            assert(e[j + 1] == e.skip(1)[j]);
            assert(e[0].1 != e[j + 1].1);
            assert(forall|i2: int, j2: int|
                0 <= i2 < j2 < e.skip(1).len() ==> e.skip(1)[i2] == e[i2 + 1] && e.skip(1)[j2]
                    == e[j2 + 1]);
            assert(distinct_paths(e.skip(1)));
            lemma_category_round_trip(e.skip(1), id);
        }
    }
}

} // verus!
