//! The decoded data model: user validation, tracked mods and their grouped
//! view, endorsements, games and categories, mod files, and the rate-limit
//! snapshot.
//!
//! Every entity is an immutable value once decoded; timestamps are held as
//! Unix seconds, URLs as plain strings.

use vstd::prelude::*;

verus! {

/// Selector for one of the two independent rate-limit windows.
#[derive(Debug, Clone, Copy, PartialEq, Eq, Structural)]
pub enum Limited {
    Hourly,
    Daily,
}

/// A read-only snapshot of the two rate-limit windows, as reported in the
/// metadata of one response. Reset instants are Unix seconds.
#[derive(Debug, Clone, Copy)]
pub struct RateLimiting {
    pub hourly_limit: u16,
    pub hourly_remaining: u16,
    pub hourly_reset: i64,
    pub daily_limit: u16,
    pub daily_remaining: u16,
    pub daily_reset: i64,
}

impl RateLimiting {
    /// Bundle one response's counters into a snapshot.
    pub fn new(
        hourly_limit: u16,
        hourly_remaining: u16,
        hourly_reset: i64,
        daily_limit: u16,
        daily_remaining: u16,
        daily_reset: i64,
    ) -> (r: RateLimiting)
        ensures
            r == (RateLimiting {
                hourly_limit,
                hourly_remaining,
                hourly_reset,
                daily_limit,
                daily_remaining,
                daily_reset,
            }),
    {
        RateLimiting {
            hourly_limit,
            hourly_remaining,
            hourly_reset,
            daily_limit,
            daily_remaining,
            daily_reset,
        }
    }

    pub fn limit(&self, limit: Limited) -> (r: u16)
        ensures
            r == (match limit {
                Limited::Hourly => self.hourly_limit,
                Limited::Daily => self.daily_limit,
            }),
    {
        match limit {
            Limited::Hourly => self.hourly_limit,
            Limited::Daily => self.daily_limit,
        }
    }

    pub fn remaining(&self, limit: Limited) -> (r: u16)
        ensures
            r == (match limit {
                Limited::Hourly => self.hourly_remaining,
                Limited::Daily => self.daily_remaining,
            }),
    {
        match limit {
            Limited::Hourly => self.hourly_remaining,
            Limited::Daily => self.daily_remaining,
        }
    }

    /// The window's reset instant, in Unix seconds.
    pub fn reset(&self, limit: Limited) -> (r: i64)
        ensures
            r == (match limit {
                Limited::Hourly => self.hourly_reset,
                Limited::Daily => self.daily_reset,
            }),
    {
        match limit {
            Limited::Hourly => self.hourly_reset,
            Limited::Daily => self.daily_reset,
        }
    }
}

/// Validation result for a given user: the identity echoed back by the
/// server, with both of the duplicated premium/supporter flag pairs kept.
#[derive(Debug)]
pub struct Validate {
    pub user_id: u64,
    pub key: String,
    pub name: String,
    pub is_premium_q: bool,
    pub is_supporter_q: bool,
    pub email: String,
    pub profile_url: String,
    pub is_premium: bool,
    pub is_supporter: bool,
}

impl Validate {
    /// Is the user a premium user? Both of the duplicated flags must agree.
    pub fn is_premium(&self) -> (r: bool)
        ensures
            r == (self.is_premium_q && self.is_premium),
    {
        self.is_premium_q && self.is_premium
    }

    /// Is the user a supporter? Both of the duplicated flags must agree.
    pub fn is_supporter(&self) -> (r: bool)
        ensures
            r == (self.is_supporter_q && self.is_supporter),
    {
        self.is_supporter_q && self.is_supporter
    }

    pub fn email(&self) -> (r: &str)
        ensures
            r@ == self.email@,
    {
        self.email.as_str()
    }

    pub fn name(&self) -> (r: &str)
        ensures
            r@ == self.name@,
    {
        self.name.as_str()
    }

    /// URL of the user's avatar (not of the user's home page).
    pub fn url(&self) -> (r: &str)
        ensures
            r@ == self.profile_url@,
    {
        self.profile_url.as_str()
    }
}

/// A checked and verified-to-exist mod ID.
///
/// The constructor is crate-private: a `ModId` can only be obtained from a
/// decoded server response, so holders may assume the ID exists upstream.
#[derive(Debug, Clone, Copy, PartialEq, Eq, PartialOrd, Ord, Hash, Structural)]
pub struct ModId {
    id: u64,
}

/// A `ModId` is viewed as its underlying number.
impl View for ModId {
    type V = u64;

    closed spec fn view(&self) -> u64 {
        self.id
    }
}

impl ModId {
    /// The underlying numeric ID.
    pub fn id(&self) -> (r: u64)
        ensures
            r == self@,
    {
        self.id
    }

    /// Crate-private: only code that has observed the ID in a server
    /// response may mint a `ModId`.
    pub(crate) fn from_u64(id: u64) -> (r: ModId)
        ensures
            r@ == id,
    {
        ModId { id }
    }
}

/// One raw tracked-mods entry: a mod and the game it belongs to.
#[derive(Debug)]
pub struct ModEntry {
    pub mod_id: ModId,
    pub domain_name: String,
}

impl ModEntry {
    pub fn id(&self) -> (r: ModId)
        ensures
            r == self.mod_id,
    {
        self.mod_id
    }

    pub fn domain_name(&self) -> (r: &str)
        ensures
            r@ == self.domain_name@,
    {
        self.domain_name.as_str()
    }
}

/// The flat tracked-mods list as the server sends it. Consider
/// [`TrackedModsRaw::into_mods`] for the grouped view.
#[derive(Debug)]
pub struct TrackedModsRaw {
    pub mods: Vec<ModEntry>,
}

/// The distinct domain names of `entries`, in first-seen order.
pub open spec fn spec_domains(entries: Seq<ModEntry>) -> Seq<Seq<char>>
    decreases entries.len(),
{
    if entries.len() == 0 {
        Seq::empty()
    } else {
        let prior = spec_domains(entries.drop_last());
        let d = entries.last().domain_name@;
        if prior.contains(d) {
            prior
        } else {
            prior.push(d)
        }
    }
}

/// The IDs of the entries whose domain is `dom`, in list order.
pub open spec fn spec_mods_for(entries: Seq<ModEntry>, dom: Seq<char>) -> Seq<ModId>
    decreases entries.len(),
{
    if entries.len() == 0 {
        Seq::empty()
    } else {
        let prior = spec_mods_for(entries.drop_last(), dom);
        if entries.last().domain_name@ == dom {
            prior.push(entries.last().mod_id)
        } else {
            prior
        }
    }
}

impl TrackedModsRaw {
    pub fn mods(&self) -> (r: &[ModEntry])
        ensures
            r@ == self.mods@,
    {
        self.mods.as_slice()
    }

    /// Group the flat list by game: one entry per distinct domain, in
    /// first-seen order, each holding that domain's IDs in list order.
    pub fn into_mods(self) -> (r: TrackedMods)
        ensures
            r.wf(),
            r.domains() =~= spec_domains(self.mods@),
            forall|k: int|
                0 <= k < r.mods@.len() ==> r.mods@[k].1@ =~= spec_mods_for(
                    self.mods@,
                    r.mods@[k].0@,
                ),
    {
        let mut out: Vec<(String, Vec<ModId>)> = Vec::new();
        let n = self.mods.len();
        let mut i: usize = 0;
        while i < n
            invariant
                n == self.mods@.len(),
                0 <= i <= n,
                out@.map_values(|p: (String, Vec<ModId>)| p.0@) =~= spec_domains(
                    self.mods@.take(i as int),
                ),
                forall|k: int, l: int|
                    0 <= k < l < out@.len() ==> out@[k].0@ != out@[l].0@,
                forall|k: int|
                    0 <= k < out@.len() ==> out@[k].1@ =~= spec_mods_for(self.mods@, out@[k].0@),
            decreases n - i,
        {
            let dom = &self.mods[i].domain_name;
            let ghost prior = spec_domains(self.mods@.take(i as int));
            let ghost d = self.mods@[i as int].domain_name@;
            let mut seen = false;
            let mut k: usize = 0;
            while k < out.len()
                invariant
                    0 <= k <= out@.len(),
                    n == self.mods@.len(),
                    0 <= i < n,
                    dom@ == d,
                    d == self.mods@[i as int].domain_name@,
                    seen <==> exists|l: int| 0 <= l < k && out@[l].0@ == d,
                decreases out@.len() - k,
            {
                if out[k].0 == *dom {
                    seen = true;
                }
                k += 1;
            }
            proof {
                if seen {
                    let l = choose|l: int| 0 <= l < out@.len() && out@[l].0@ == d;
                    assert(prior[l] == out@[l].0@);
                    assert(prior.contains(d));
                } else {
                    assert forall|l: int| 0 <= l < prior.len() implies prior[l] != d by {
                        assert(prior[l] == out@[l].0@);
                    }
                    assert(!prior.contains(d));
                }
            }
            if !seen {
                let ids = collect_ids(&self.mods, dom);
                out.push((dom.clone(), ids));
            }
            proof {
                assert(self.mods@.take(i as int + 1).drop_last() =~= self.mods@.take(i as int));
                assert(self.mods@.take(i as int + 1).last() == self.mods@[i as int]);
                if seen {
                    assert(spec_domains(self.mods@.take(i as int + 1)) =~= prior);
                } else {
                    assert(spec_domains(self.mods@.take(i as int + 1)) =~= prior.push(d));
                    assert(out@.map_values(|p: (String, Vec<ModId>)| p.0@) =~= prior.push(d));
                }
            }
            i += 1;
        }
        proof {
            assert(self.mods@.take(n as int) =~= self.mods@);
        }
        TrackedMods { mods: out }
    }
}

/// All IDs in `entries` whose domain equals `dom`, in list order.
fn collect_ids(entries: &Vec<ModEntry>, dom: &String) -> (r: Vec<ModId>)
    ensures
        r@ =~= spec_mods_for(entries@, dom@),
{
    let mut ids: Vec<ModId> = Vec::new();
    let n = entries.len();
    let mut j: usize = 0;
    while j < n
        invariant
            n == entries@.len(),
            0 <= j <= n,
            ids@ =~= spec_mods_for(entries@.take(j as int), dom@),
        decreases n - j,
    {
        proof {
            assert(entries@.take(j as int + 1).drop_last() =~= entries@.take(j as int));
        }
        if entries[j].domain_name == *dom {
            ids.push(entries[j].mod_id);
        }
        j += 1;
    }
    proof {
        assert(entries@.take(n as int) =~= entries@);
    }
    ids
}

/// The grouped tracked-mods view: one entry per game domain, built once by
/// [`TrackedModsRaw::into_mods`] and read-only afterward.
#[derive(Debug)]
pub struct TrackedMods {
    pub mods: Vec<(String, Vec<ModId>)>,
}

impl TrackedMods {
    /// Domains are pairwise distinct.
    pub open spec fn wf(self) -> bool {
        forall|k: int, l: int| 0 <= k < l < self.mods@.len() ==> self.mods@[k].0@ != self.mods@[l].0@
    }

    /// The domain names, in order.
    pub open spec fn domains(self) -> Seq<Seq<char>> {
        self.mods@.map_values(|p: (String, Vec<ModId>)| p.0@)
    }

    /// The IDs tracked under a game's domain name, if any entry was seen
    /// for it.
    pub fn get_game(&self, name: &str) -> (r: Option<&[ModId]>)
        ensures
            match r {
                Some(ids) => exists|k: int|
                    0 <= k < self.mods@.len() && self.mods@[k].0@ == name@ && ids@
                        == self.mods@[k].1@,
                None => forall|k: int| 0 <= k < self.mods@.len() ==> self.mods@[k].0@ != name@,
            },
    {
        let key = String::from_str(name);
        let n = self.mods.len();
        let mut k: usize = 0;
        while k < n
            invariant
                n == self.mods@.len(),
                0 <= k <= n,
                key@ == name@,
                forall|l: int| 0 <= l < k ==> self.mods@[l].0@ != name@,
            decreases n - k,
        {
            if self.mods[k].0 == key {
                return Some(self.mods[k].1.as_slice());
            }
            k += 1;
        }
        None
    }

    /// All game domain names, in grouped order.
    pub fn games(&self) -> (r: Vec<String>)
        ensures
            r@.len() == self.mods@.len(),
            forall|k: int| 0 <= k < r@.len() ==> r@[k]@ == self.mods@[k].0@,
    {
        let mut names: Vec<String> = Vec::new();
        let n = self.mods.len();
        let mut k: usize = 0;
        while k < n
            invariant
                n == self.mods@.len(),
                0 <= k <= n,
                names@.len() == k,
                forall|l: int| 0 <= l < k ==> names@[l]@ == self.mods@[l].0@,
            decreases n - k,
        {
            names.push(self.mods[k].0.clone());
            k += 1;
        }
        names
    }
}

/// Endorsement status of one mod: the exact tag "Endorsed", or the
/// catch-all for every other wire value.
#[derive(Debug, Clone, Copy, PartialEq, Eq, Structural)]
pub enum EndorseStatus {
    Endorsed,
    NotEndorsed,
}

/// One endorsement record. The timestamp is Unix seconds.
#[derive(Debug)]
pub struct Endorsement {
    pub mod_id: ModId,
    pub domain_name: String,
    pub date: i64,
    pub version: Option<String>,
    pub status: EndorseStatus,
}

impl Endorsement {
    pub fn id(&self) -> (r: ModId)
        ensures
            r == self.mod_id,
    {
        self.mod_id
    }

    pub fn domain_name(&self) -> (r: &str)
        ensures
            r@ == self.domain_name@,
    {
        self.domain_name.as_str()
    }

    pub fn version(&self) -> (r: Option<&str>)
        ensures
            match r {
                Some(v) => self.version matches Some(s) && v@ == s@,
                None => self.version is None,
            },
    {
        match &self.version {
            Some(s) => Some(s.as_str()),
            None => None,
        }
    }

    /// The endorsement instant, in Unix seconds.
    pub fn date(&self) -> (r: i64)
        ensures
            r == self.date,
    {
        self.date
    }

    pub fn endorsed_status(&self) -> (r: EndorseStatus)
        ensures
            r == self.status,
    {
        self.status
    }

    pub fn is_endorsed(&self) -> (r: bool)
        ensures
            r == (self.status is Endorsed),
    {
        match self.status {
            EndorseStatus::Endorsed => true,
            EndorseStatus::NotEndorsed => false,
        }
    }
}

/// The user's endorsement list.
#[derive(Debug)]
pub struct Endorsements {
    pub mods: Vec<Endorsement>,
}

impl Endorsements {
    pub fn mods(&self) -> (r: &[Endorsement])
        ensures
            r@ == self.mods@,
    {
        self.mods.as_slice()
    }

    /// The first endorsement the predicate accepts, if any.
    pub fn find<F: Fn(&Endorsement) -> bool>(&self, func: F) -> (r: Option<&Endorsement>)
        requires
            forall|e: &Endorsement| #[trigger] call_requires(func, (e,)),
        ensures
            match r {
                Some(e) => exists|i: int|
                    0 <= i < self.mods@.len() && *e == self.mods@[i] && call_ensures(
                        func,
                        (&self.mods@[i],),
                        true,
                    ) && forall|j: int|
                        0 <= j < i ==> call_ensures(func, (&self.mods@[j],), false),
                None => forall|j: int|
                    0 <= j < self.mods@.len() ==> call_ensures(func, (&self.mods@[j],), false),
            },
    {
        let n = self.mods.len();
        let mut i: usize = 0;
        while i < n
            invariant
                n == self.mods@.len(),
                0 <= i <= n,
                forall|e: &Endorsement| #[trigger] call_requires(func, (e,)),
                forall|j: int| 0 <= j < i ==> call_ensures(func, (&self.mods@[j],), false),
            decreases n - i,
        {
            if func(&self.mods[i]) {
                return Some(&self.mods[i]);
            }
            i += 1;
        }
        None
    }
}

/// A category's parent reference: another category's id in the same game,
/// or none. On the wire the latter is the boolean `false`, never `0`,
/// which is itself a valid category id.
#[derive(Debug, Clone, Copy, PartialEq, Eq, Structural)]
pub enum Category {
    Parent(u64),
    NoParent,
}

/// One category of a game.
#[derive(Debug)]
pub struct GameCategory {
    pub category_id: u64,
    pub name: String,
    pub parent_category: Category,
}

impl GameCategory {
    pub fn category_id(&self) -> (r: u64)
        ensures
            r == self.category_id,
    {
        self.category_id
    }

    pub fn name(&self) -> (r: &str)
        ensures
            r@ == self.name@,
    {
        self.name.as_str()
    }

    pub fn parent(&self) -> (r: Category)
        ensures
            r == self.parent_category,
    {
        self.parent_category
    }
}

/// `i` indexes the first category in `cats` whose id is `n`.
pub open spec fn first_category_with(cats: Seq<GameCategory>, n: u64, i: int) -> bool {
    &&& 0 <= i < cats.len()
    &&& cats[i].category_id == n
    &&& forall|j: int| 0 <= j < i ==> cats[j].category_id != n
}

/// One game's metadata. Timestamps are Unix seconds; URLs plain strings.
#[derive(Debug)]
pub struct GameId {
    pub id: u64,
    pub name: String,
    pub forum_url: String,
    pub nexusmods_url: String,
    pub genre: String,
    pub file_count: u64,
    pub domain_name: String,
    pub approved_date: i64,
    pub file_views: u64,
    pub authors: u64,
    pub file_endorsements: u64,
    pub mods: u64,
    pub categories: Vec<GameCategory>,
}

impl GameId {
    pub fn id(&self) -> (r: u64)
        ensures
            r == self.id,
    {
        self.id
    }

    pub fn pretty_name(&self) -> (r: &str)
        ensures
            r@ == self.name@,
    {
        self.name.as_str()
    }

    pub fn forum(&self) -> (r: &str)
        ensures
            r@ == self.forum_url@,
    {
        self.forum_url.as_str()
    }

    pub fn page(&self) -> (r: &str)
        ensures
            r@ == self.nexusmods_url@,
    {
        self.nexusmods_url.as_str()
    }

    pub fn genre(&self) -> (r: &str)
        ensures
            r@ == self.genre@,
    {
        self.genre.as_str()
    }

    pub fn domain_name(&self) -> (r: &str)
        ensures
            r@ == self.domain_name@,
    {
        self.domain_name.as_str()
    }

    /// The approval instant, in Unix seconds.
    pub fn approved_date(&self) -> (r: i64)
        ensures
            r == self.approved_date,
    {
        self.approved_date
    }

    pub fn file_views(&self) -> (r: u64)
        ensures
            r == self.file_views,
    {
        self.file_views
    }

    pub fn authors(&self) -> (r: u64)
        ensures
            r == self.authors,
    {
        self.authors
    }

    pub fn endorsements(&self) -> (r: u64)
        ensures
            r == self.file_endorsements,
    {
        self.file_endorsements
    }

    pub fn mods(&self) -> (r: u64)
        ensures
            r == self.mods,
    {
        self.mods
    }

    pub fn categories(&self) -> (r: &[GameCategory])
        ensures
            r@ == self.categories@,
    {
        self.categories.as_slice()
    }

    /// The first category whose id the given category's parent reference
    /// points at; `None` for a root category.
    pub fn trace_parent_category<'a>(&'a self, category: &GameCategory) -> (r: Option<
        &'a GameCategory,
    >)
        ensures
            category.parent_category matches Category::Parent(n) ==> {
                &&& r matches Some(c) ==> exists|i: int|
                    #[trigger] first_category_with(self.categories@, n, i) && *c
                        == self.categories@[i]
                &&& r is None ==> forall|j: int|
                    0 <= j < self.categories@.len() ==> self.categories@[j].category_id != n
            },
            category.parent_category is NoParent ==> r is None,
    {
        match category.parent_category {
            Category::Parent(n) => {
                let len = self.categories.len();
                let mut i: usize = 0;
                while i < len
                    invariant
                        len == self.categories@.len(),
                        0 <= i <= len,
                        category.parent_category == Category::Parent(n),
                        forall|j: int| 0 <= j < i ==> self.categories@[j].category_id != n,
                    decreases len - i,
                {
                    if self.categories[i].category_id == n {
                        let c = &self.categories[i];
                        proof {
                            let m = category.parent_category->0;
                            assert(m == n);
                            assert(first_category_with(self.categories@, m, i as int));
                            assert(*c == self.categories@[i as int]);
                            assert(exists|w: int|
                                #[trigger] first_category_with(self.categories@, m, w) && *c
                                    == self.categories@[w]);
                        }
                        return Some(c);
                    }
                    i += 1;
                }
                None
            },
            Category::NoParent => None,
        }
    }
}

/// The fixed set of file categories the server reports.
#[derive(Debug, Clone, Copy, PartialEq, Eq, Structural)]
pub enum CategoryName {
    Main,
    Update,
    Optional,
    OldVersion,
    Miscellaneous,
    Archived,
}

impl CategoryName {
    /// The lower-case form used as a query parameter value.
    pub fn to_header_str(self) -> (r: &'static str)
        ensures
            r@ == (match self {
                CategoryName::Main => "main"@,
                CategoryName::Update => "update"@,
                CategoryName::Optional => "optional"@,
                CategoryName::OldVersion => "old_version"@,
                CategoryName::Miscellaneous => "miscellaneous"@,
                CategoryName::Archived => "archived"@,
            }),
    {
        match self {
            CategoryName::Main => "main",
            CategoryName::Update => "update",
            CategoryName::Optional => "optional",
            CategoryName::OldVersion => "old_version",
            CategoryName::Miscellaneous => "miscellaneous",
            CategoryName::Archived => "archived",
        }
    }
}

/// One downloadable file of a mod.
///
/// The server reports the same instant in two encodings (an epoch integer
/// and an ISO-8601 string) and the size in redundant units; all are kept
/// as decoded, not reconciled.
#[derive(Debug)]
pub struct ModFile {
    pub id: Vec<u64>,
    pub uid: u64,
    pub file_id: u64,
    pub name: String,
    pub version: String,
    pub category_id: u64,
    pub category_name: CategoryName,
    pub is_primary: bool,
    pub size: u64,
    pub file_name: String,
    pub uploaded_timestamp: i64,
    pub uploaded_time: i64,
    pub mod_version: String,
    pub external_virus_scan_url: Option<String>,
    pub description: Option<String>,
    pub size_kb: u64,
    pub size_in_bytes: u64,
    pub changelog_html: Option<String>,
    pub content_preview_link: String,
}

/// Field-wise equality of two files (the id list compared by contents).
pub open spec fn file_eq(a: ModFile, b: ModFile) -> bool {
    &&& a.id@ == b.id@
    &&& a.uid == b.uid
    &&& a.file_id == b.file_id
    &&& a.name == b.name
    &&& a.version == b.version
    &&& a.category_id == b.category_id
    &&& a.category_name == b.category_name
    &&& a.is_primary == b.is_primary
    &&& a.size == b.size
    &&& a.file_name == b.file_name
    &&& a.uploaded_timestamp == b.uploaded_timestamp
    &&& a.uploaded_time == b.uploaded_time
    &&& a.mod_version == b.mod_version
    &&& a.external_virus_scan_url == b.external_virus_scan_url
    &&& a.description == b.description
    &&& a.size_kb == b.size_kb
    &&& a.size_in_bytes == b.size_in_bytes
    &&& a.changelog_html == b.changelog_html
    &&& a.content_preview_link == b.content_preview_link
}

fn clone_u64_vec(v: &Vec<u64>) -> (r: Vec<u64>)
    ensures
        r@ == v@,
{
    let mut out: Vec<u64> = Vec::new();
    let n = v.len();
    let mut i: usize = 0;
    while i < n
        invariant
            n == v@.len(),
            0 <= i <= n,
            out@.len() == i,
            forall|j: int| 0 <= j < i ==> out@[j] == v@[j],
        decreases n - i,
    {
        out.push(v[i]);
        i += 1;
    }
    proof {
        assert(out@ =~= v@);
    }
    out
}

fn clone_opt_string(v: &Option<String>) -> (r: Option<String>)
    ensures
        r == *v,
{
    match v {
        Some(s) => Some(s.clone()),
        None => None,
    }
}

impl Clone for ModFile {
    /// The clone matches the original field for field.
    fn clone(&self) -> (r: Self)
        ensures
            file_eq(*self, r),
    {
        ModFile {
            id: clone_u64_vec(&self.id),
            uid: self.uid,
            file_id: self.file_id,
            name: self.name.clone(),
            version: self.version.clone(),
            category_id: self.category_id,
            category_name: self.category_name,
            is_primary: self.is_primary,
            size: self.size,
            file_name: self.file_name.clone(),
            uploaded_timestamp: self.uploaded_timestamp,
            uploaded_time: self.uploaded_time,
            mod_version: self.mod_version.clone(),
            external_virus_scan_url: clone_opt_string(&self.external_virus_scan_url),
            description: clone_opt_string(&self.description),
            size_kb: self.size_kb,
            size_in_bytes: self.size_in_bytes,
            changelog_html: clone_opt_string(&self.changelog_html),
            content_preview_link: self.content_preview_link.clone(),
        }
    }
}

impl ModFile {
    pub fn ids(&self) -> (r: &[u64])
        ensures
            r@ == self.id@,
    {
        self.id.as_slice()
    }

    pub fn uid(&self) -> (r: u64)
        ensures
            r == self.uid,
    {
        self.uid
    }

    pub fn file_id(&self) -> (r: u64)
        ensures
            r == self.file_id,
    {
        self.file_id
    }

    pub fn name(&self) -> (r: &str)
        ensures
            r@ == self.name@,
    {
        self.name.as_str()
    }

    pub fn version(&self) -> (r: &str)
        ensures
            r@ == self.version@,
    {
        self.version.as_str()
    }

    pub fn category_id(&self) -> (r: u64)
        ensures
            r == self.category_id,
    {
        self.category_id
    }

    pub fn category_name(&self) -> (r: CategoryName)
        ensures
            r == self.category_name,
    {
        self.category_name
    }

    pub fn is_primary(&self) -> (r: bool)
        ensures
            r == self.is_primary,
    {
        self.is_primary
    }

    /// Reported by the server in kilobytes.
    pub fn size(&self) -> (r: u64)
        ensures
            r == self.size,
    {
        self.size
    }

    pub fn file_name(&self) -> (r: &str)
        ensures
            r@ == self.file_name@,
    {
        self.file_name.as_str()
    }

    /// The upload instant, in Unix seconds (from the epoch-encoded field).
    pub fn uploaded_at(&self) -> (r: i64)
        ensures
            r == self.uploaded_timestamp,
    {
        self.uploaded_timestamp
    }

    /// The upload instant, in Unix seconds (from the ISO-8601 field).
    pub fn uploaded_time(&self) -> (r: i64)
        ensures
            r == self.uploaded_time,
    {
        self.uploaded_time
    }

    pub fn mod_version(&self) -> (r: &str)
        ensures
            r@ == self.mod_version@,
    {
        self.mod_version.as_str()
    }

    pub fn virus_scan_url(&self) -> (r: Option<&str>)
        ensures
            match r {
                Some(u) => self.external_virus_scan_url matches Some(s) && u@ == s@,
                None => self.external_virus_scan_url is None,
            },
    {
        match &self.external_virus_scan_url {
            Some(s) => Some(s.as_str()),
            None => None,
        }
    }

    pub fn description(&self) -> (r: Option<&str>)
        ensures
            match r {
                Some(d) => self.description matches Some(s) && d@ == s@,
                None => self.description is None,
            },
    {
        match &self.description {
            Some(s) => Some(s.as_str()),
            None => None,
        }
    }

    pub fn size_kb(&self) -> (r: u64)
        ensures
            r == self.size_kb,
    {
        self.size_kb
    }

    pub fn size_bytes(&self) -> (r: u64)
        ensures
            r == self.size_in_bytes,
    {
        self.size_in_bytes
    }

    pub fn changelog(&self) -> (r: Option<&str>)
        ensures
            match r {
                Some(c) => self.changelog_html matches Some(s) && c@ == s@,
                None => self.changelog_html is None,
            },
    {
        match &self.changelog_html {
            Some(s) => Some(s.as_str()),
            None => None,
        }
    }

    pub fn content_preview(&self) -> (r: &str)
        ensures
            r@ == self.content_preview_link@,
    {
        self.content_preview_link.as_str()
    }
}

/// One entry of the parallel file-update list: an old file superseded by a
/// new one.
#[derive(Debug)]
pub struct FileUpdate {
    pub old_file_id: u64,
    pub new_file_id: u64,
    pub old_file_name: String,
    pub new_file_name: String,
    pub uploaded_timestamp: i64,
    pub uploaded_time: i64,
}

impl FileUpdate {
    /// The old and the new file ID.
    pub fn ids(&self) -> (r: (u64, u64))
        ensures
            r == (self.old_file_id, self.new_file_id),
    {
        (self.old_file_id, self.new_file_id)
    }

    /// The old and the new file name.
    pub fn names(&self) -> (r: (&str, &str))
        ensures
            r.0@ == self.old_file_name@,
            r.1@ == self.new_file_name@,
    {
        (self.old_file_name.as_str(), self.new_file_name.as_str())
    }

    /// The upload instant, in Unix seconds.
    pub fn uploaded_at(&self) -> (r: i64)
        ensures
            r == self.uploaded_timestamp,
    {
        self.uploaded_timestamp
    }
}

/// `i` is covered by `idx`: it is kept itself, or `same` matched it
/// against an earlier kept entry.
pub open spec fn dedup_covers<F: Fn(&ModFile, &ModFile) -> bool>(
    files: Seq<ModFile>,
    same: F,
    idx: Seq<usize>,
    i: int,
) -> bool {
    exists|k: int|
        0 <= k < idx.len() && (((#[trigger] idx[k]) as int) == i || ((idx[k] as int) < i
            && call_ensures(same, (&files[i], &files[idx[k] as int]), true)))
}

/// `idx` picks, in strictly increasing order, the entries of `files` that
/// `out` keeps (as clones); no two kept entries match under `same`, and
/// every entry is kept itself or matched against an earlier kept one.
pub open spec fn dedup_spec<F: Fn(&ModFile, &ModFile) -> bool>(
    files: Seq<ModFile>,
    same: F,
    idx: Seq<usize>,
    out: Seq<ModFile>,
) -> bool {
    &&& idx.len() == out.len()
    &&& forall|k: int|
        0 <= k < idx.len() ==> ((#[trigger] idx[k]) as int) < files.len() && file_eq(
            out[k],
            files[idx[k] as int],
        )
    &&& forall|k: int, l: int|
        #![trigger idx[k], idx[l]]
        0 <= k < l < idx.len() ==> idx[k] < idx[l]
    &&& idx.len() > 0 ==> idx[0] == 0
    &&& (files.len() > 0 ==> idx.len() > 0)
    &&& forall|k: int, l: int|
        #![trigger idx[k], idx[l]]
        0 <= k < l < idx.len() ==> call_ensures(
            same,
            (&files[idx[l] as int], &files[idx[k] as int]),
            false,
        )
    &&& forall|i: int| 0 <= i < files.len() ==> #[trigger] dedup_covers(files, same, idx, i)
}

/// A mod's file list with the parallel file-update list.
#[derive(Debug)]
pub struct ModFiles {
    pub files: Vec<ModFile>,
    pub file_updates: Vec<FileUpdate>,
}

impl ModFiles {
    pub fn iter_files(&self) -> (r: &[ModFile])
        ensures
            r@ == self.files@,
    {
        self.files.as_slice()
    }

    pub fn iter_updates(&self) -> (r: &[FileUpdate])
        ensures
            r@ == self.file_updates@,
    {
        self.file_updates.as_slice()
    }

    pub fn into_iter_files(self) -> (r: Vec<ModFile>)
        ensures
            r@ == self.files@,
    {
        self.files
    }

    pub fn into_iter_updates(self) -> (r: Vec<FileUpdate>)
        ensures
            r@ == self.file_updates@,
    {
        self.file_updates
    }

    /// Keep the first representative of each equivalence class of `same`,
    /// in original order.
    pub fn dedup<F: Fn(&ModFile, &ModFile) -> bool>(&self, same: F) -> (out: Vec<ModFile>)
        requires
            forall|x: &ModFile, y: &ModFile| #[trigger] call_requires(same, (x, y)),
        ensures
            exists|idx: Seq<usize>| #[trigger] dedup_spec(self.files@, same, idx, out@),
    {
        let files = &self.files;
        let n = files.len();
        let mut kept: Vec<usize> = Vec::new();
        let mut i: usize = 0;
        while i < n
            invariant
                n == files@.len(),
                0 <= i <= n,
                forall|x: &ModFile, y: &ModFile| #[trigger] call_requires(same, (x, y)),
                forall|k: int| 0 <= k < kept@.len() ==> (#[trigger] kept@[k]) < i,
                forall|k: int, l: int|
                    #![trigger kept@[k], kept@[l]]
                    0 <= k < l < kept@.len() ==> kept@[k] < kept@[l],
                kept@.len() > 0 ==> kept@[0] == 0,
                i > 0 ==> kept@.len() > 0,
                forall|k: int, l: int|
                    #![trigger kept@[k], kept@[l]]
                    0 <= k < l < kept@.len() ==> call_ensures(
                        same,
                        (&files@[kept@[l] as int], &files@[kept@[k] as int]),
                        false,
                    ),
                forall|q: int| 0 <= q < i ==> #[trigger] dedup_covers(files@, same, kept@, q),
            decreases n - i,
        {
            let ghost prev = kept@;
            let x = &files[i];
            let mut dup = false;
            let mut k: usize = 0;
            while k < kept.len()
                invariant
                    0 <= k <= kept@.len(),
                    n == files@.len(),
                    0 <= i < n,
                    x == &files@[i as int],
                    forall|xx: &ModFile, yy: &ModFile| #[trigger] call_requires(same, (xx, yy)),
                    forall|l: int| 0 <= l < kept@.len() ==> (#[trigger] kept@[l]) < i,
                    dup ==> exists|l: int|
                        0 <= l < kept@.len() && call_ensures(
                            same,
                            (&files@[i as int], &files@[(#[trigger] kept@[l]) as int]),
                            true,
                        ),
                    !dup ==> forall|l: int|
                        0 <= l < k ==> call_ensures(
                            same,
                            (&files@[i as int], &files@[(#[trigger] kept@[l]) as int]),
                            false,
                        ),
                decreases kept@.len() - k,
            {
                if same(x, &files[kept[k]]) {
                    dup = true;
                }
                k += 1;
            }
            if !dup {
                kept.push(i);
            }
            proof {
                assert forall|q: int| 0 <= q < i + 1 implies #[trigger] dedup_covers(
                    files@,
                    same,
                    kept@,
                    q,
                ) by {
                    if q < i as int {
                        assert(dedup_covers(files@, same, prev, q));
                        let w = choose|w: int|
                            0 <= w < prev.len() && (((#[trigger] prev[w]) as int) == q || ((
                            prev[w] as int) < q && call_ensures(
                                same,
                                (&files@[q], &files@[prev[w] as int]),
                                true,
                            )));
                        assert(kept@[w] == prev[w]);
                    } else {
                        if !dup {
                            assert(kept@[kept@.len() - 1] as int == i as int);
                        } else {
                            let l = choose|l: int|
                                0 <= l < prev.len() && call_ensures(
                                    same,
                                    (&files@[i as int], &files@[(#[trigger] prev[l]) as int]),
                                    true,
                                );
                            assert(kept@[l] == prev[l]);
                            assert((prev[l] as int) < q);
                        }
                    }
                }
            }
            i += 1;
        }
        let mut out: Vec<ModFile> = Vec::new();
        let m = kept.len();
        let mut j: usize = 0;
        while j < m
            invariant
                m == kept@.len(),
                n == files@.len(),
                0 <= j <= m,
                out@.len() == j,
                forall|k: int| 0 <= k < kept@.len() ==> (#[trigger] kept@[k]) < n,
                forall|k: int| 0 <= k < j ==> file_eq(#[trigger] out@[k], files@[kept@[k] as int]),
            decreases m - j,
        {
            out.push(files[kept[j]].clone());
            j += 1;
        }
        proof {
            assert(dedup_spec(self.files@, same, kept@, out@));
        }
        out
    }
}

/// The file tree of a content preview.
#[derive(Debug)]
pub struct PreviewFileRoot {
    pub children: Vec<PreviewFileChildren>,
}

/// One node of a content-preview tree: a directory with children, or a
/// leaf file.
#[derive(Debug)]
pub enum PreviewFileChildren {
    Directory { path: String, name: String, children: Vec<PreviewFileChildren> },
    File { path: String, name: String, size: String },
}

/// The leaf files under `node`, in depth-first order.
pub open spec fn spec_preview_files(node: PreviewFileChildren) -> Seq<PreviewFileChildren>
    decreases node,
{
    match node {
        PreviewFileChildren::Directory { children, .. } => spec_preview_files_list(children@),
        PreviewFileChildren::File { .. } => seq![node],
    }
}

/// The leaf files under each node of `nodes`, concatenated.
pub open spec fn spec_preview_files_list(nodes: Seq<PreviewFileChildren>) -> Seq<
    PreviewFileChildren,
>
    decreases nodes, nodes.len(),
{
    if nodes.len() == 0 {
        Seq::empty()
    } else {
        spec_preview_files_list(nodes.drop_last()) + spec_preview_files(nodes.last())
    }
}

impl PreviewFileChildren {
    /// The node's path.
    pub fn into_pathbuf(self) -> (r: String)
        ensures
            r@ == (match self {
                PreviewFileChildren::Directory { path, .. } => path@,
                PreviewFileChildren::File { path, .. } => path@,
            }),
    {
        match self {
            PreviewFileChildren::Directory { path, .. } => path,
            PreviewFileChildren::File { path, .. } => path,
        }
    }
}

fn gather<'a>(node: &'a PreviewFileChildren, out: &mut Vec<&'a PreviewFileChildren>)
    ensures
        final(out)@.len() == old(out)@.len() + spec_preview_files(*node).len(),
        forall|k: int| 0 <= k < old(out)@.len() ==> final(out)@[k] == old(out)@[k],
        forall|k: int|
            0 <= k < spec_preview_files(*node).len() ==> *final(out)@[old(out)@.len() + k]
                == spec_preview_files(*node)[k],
    decreases *node,
{
    match node {
        PreviewFileChildren::Directory { children, .. } => {
            let n = children.len();
            let mut j: usize = 0;
            while j < n
                invariant
                    n == children@.len(),
                    0 <= j <= n,
                    node is Directory,
                    children == node->Directory_children,
                    spec_preview_files(*node) == spec_preview_files_list(children@),
                    out@.len() == old(out)@.len() + spec_preview_files_list(
                        children@.take(j as int),
                    ).len(),
                    forall|k: int| 0 <= k < old(out)@.len() ==> out@[k] == old(out)@[k],
                    forall|k: int|
                        0 <= k < spec_preview_files_list(children@.take(j as int)).len()
                            ==> *out@[old(out)@.len() + k] == spec_preview_files_list(
                            children@.take(j as int),
                        )[k],
                decreases n - j,
            {
                proof {
                    assert(children@.take(j as int + 1).drop_last() =~= children@.take(j as int));
                    assert(children@.take(j as int + 1).last() == children@[j as int]);
                    assert(decreases_to!(*node => children@[j as int]));
                }
                gather(&children[j], out);
                j += 1;
            }
            proof {
                assert(children@.take(n as int) =~= children@);
            }
        },
        PreviewFileChildren::File { .. } => {
            out.push(node);
            proof {
                assert(spec_preview_files(*node) =~= seq![*node]);
            }
        },
    }
}

impl PreviewFileRoot {
    /// All leaf files in the preview, in depth-first order.
    pub fn files(&self) -> (r: Vec<&PreviewFileChildren>)
        ensures
            r@.len() == spec_preview_files_list(self.children@).len(),
            forall|k: int|
                0 <= k < r@.len() ==> *r@[k] == spec_preview_files_list(self.children@)[k],
    {
        let mut out: Vec<&PreviewFileChildren> = Vec::new();
        let n = self.children.len();
        let mut j: usize = 0;
        while j < n
            invariant
                n == self.children@.len(),
                0 <= j <= n,
                out@.len() == spec_preview_files_list(self.children@.take(j as int)).len(),
                forall|k: int|
                    0 <= k < out@.len() ==> *out@[k] == spec_preview_files_list(
                        self.children@.take(j as int),
                    )[k],
            decreases n - j,
        {
            proof {
                assert(self.children@.take(j as int + 1).drop_last() =~= self.children@.take(
                    j as int,
                ));
                assert(self.children@.take(j as int + 1).last() == self.children@[j as int]);
            }
            gather(&self.children[j], &mut out);
            j += 1;
        }
        proof {
            assert(self.children@.take(n as int) =~= self.children@);
        }
        out
    }
}

/// One entry of the recently-updated list.
#[derive(Debug)]
pub struct ModUpdated {
    pub mod_id: ModId,
    pub latest_file_update: i64,
    pub latest_mod_activity: i64,
}

impl ModUpdated {
    pub fn id(&self) -> (r: ModId)
        ensures
            r == self.mod_id,
    {
        self.mod_id
    }

    /// The latest file-update instant, in Unix seconds.
    pub fn last_updated(&self) -> (r: i64)
        ensures
            r == self.latest_file_update,
    {
        self.latest_file_update
    }

    /// The latest activity instant, in Unix seconds.
    pub fn last_activity(&self) -> (r: i64)
        ensures
            r == self.latest_mod_activity,
    {
        self.latest_mod_activity
    }
}

/// The timeframe filter of the recently-updated endpoint.
#[derive(Debug, Clone, Copy, PartialEq, Eq, PartialOrd, Ord, Structural)]
pub enum TimePeriod {
    Day,
    Week,
    Month,
}

impl TimePeriod {
    /// The wire form used as a query parameter value.
    pub fn as_str(&self) -> (r: &'static str)
        ensures
            r@ == (match self {
                TimePeriod::Day => "1d"@,
                TimePeriod::Week => "1w"@,
                TimePeriod::Month => "1m"@,
            }),
    {
        match self {
            TimePeriod::Day => "1d",
            TimePeriod::Week => "1w",
            TimePeriod::Month => "1m",
        }
    }

    /// The period's length in hours.
    pub fn duration_hours(&self) -> (r: u64)
        ensures
            r == (match self {
                TimePeriod::Day => 24int,
                TimePeriod::Week => 24int * 7,
                TimePeriod::Month => 24int * 7 * 31,
            }),
    {
        match self {
            TimePeriod::Day => 24,
            TimePeriod::Week => 24 * 7,
            TimePeriod::Month => 24 * 7 * 31,
        }
    }
}

/// A mod's changelogs: version string to its list of change lines.
#[derive(Debug)]
pub struct Changelog {
    pub logs: Vec<(String, Vec<String>)>,
}

impl Changelog {
    pub fn logs(&self) -> (r: &[(String, Vec<String>)])
        ensures
            r@ == self.logs@,
    {
        self.logs.as_slice()
    }

    /// The change lines recorded under a version string, if any.
    pub fn get(&self, version: &str) -> (r: Option<&Vec<String>>)
        ensures
            match r {
                Some(lines) => exists|k: int|
                    0 <= k < self.logs@.len() && self.logs@[k].0@ == version@ && *lines
                        == self.logs@[k].1,
                None => forall|k: int| 0 <= k < self.logs@.len() ==> self.logs@[k].0@ != version@,
            },
    {
        let key = String::from_str(version);
        let n = self.logs.len();
        let mut k: usize = 0;
        while k < n
            invariant
                n == self.logs@.len(),
                0 <= k <= n,
                key@ == version@,
                forall|l: int| 0 <= l < k ==> self.logs@[l].0@ != version@,
            decreases n - k,
        {
            if self.logs[k].0 == key {
                return Some(&self.logs[k].1);
            }
            k += 1;
        }
        None
    }
}

/// Whether the caller has endorsed a mod.
#[derive(Debug, Clone, Copy, PartialEq, Eq, Structural)]
pub enum HasEndorsed {
    Endorsed,
    Undecided,
}

/// The caller's endorsement state carried inside a mod record.
#[derive(Debug)]
pub struct EndorsementInfo {
    pub endorse_status: HasEndorsed,
    pub timestamp: Option<i64>,
    pub version: Option<String>,
}

impl EndorsementInfo {
    pub fn status(&self) -> (r: HasEndorsed)
        ensures
            r == self.endorse_status,
    {
        self.endorse_status
    }

    pub fn has_endorsed(&self) -> (r: bool)
        ensures
            r == (self.endorse_status is Endorsed),
    {
        match self.endorse_status {
            HasEndorsed::Endorsed => true,
            HasEndorsed::Undecided => false,
        }
    }

    /// The endorsement instant in Unix seconds, if recorded.
    pub fn endorsed_at(&self) -> (r: Option<i64>)
        ensures
            r == self.timestamp,
    {
        self.timestamp
    }

    pub fn endorsed_version(&self) -> (r: Option<&str>)
        ensures
            match r {
                Some(v) => self.version matches Some(s) && v@ == s@,
                None => self.version is None,
            },
    {
        match &self.version {
            Some(s) => Some(s.as_str()),
            None => None,
        }
    }
}

/// One mod's full record. Timestamps are Unix seconds; URLs plain strings.
#[derive(Debug)]
pub struct GameMod {
    pub name: String,
    pub summary: String,
    pub description: String,
    pub picture_url: String,
    pub mod_downloads: u64,
    pub mod_unique_downloads: u64,
    pub uid: u64,
    pub game_id: u64,
    pub allow_rating: bool,
    pub domain_name: String,
    pub category_id: u64,
    pub version: String,
    pub endorsement_count: u64,
    pub created_timestamp: i64,
    pub created_time: i64,
    pub updated_timestamp: i64,
    pub updated_time: i64,
    pub author: String,
    pub uploaded_by: String,
    pub uploaded_users_profile_url: String,
    pub contains_adult_content: bool,
    pub status: String,
    pub available: bool,
    pub endorsement: EndorsementInfo,
}

impl GameMod {
    pub fn name(&self) -> (r: &str)
        ensures
            r@ == self.name@,
    {
        self.name.as_str()
    }

    pub fn summary(&self) -> (r: &str)
        ensures
            r@ == self.summary@,
    {
        self.summary.as_str()
    }

    pub fn description(&self) -> (r: &str)
        ensures
            r@ == self.description@,
    {
        self.description.as_str()
    }

    pub fn mod_picture(&self) -> (r: &str)
        ensures
            r@ == self.picture_url@,
    {
        self.picture_url.as_str()
    }

    pub fn unique_downloads(&self) -> (r: u64)
        ensures
            r == self.mod_unique_downloads,
    {
        self.mod_unique_downloads
    }

    pub fn uid(&self) -> (r: u64)
        ensures
            r == self.uid,
    {
        self.uid
    }

    pub fn game_id(&self) -> (r: u64)
        ensures
            r == self.game_id,
    {
        self.game_id
    }

    pub fn allow_rating(&self) -> (r: bool)
        ensures
            r == self.allow_rating,
    {
        self.allow_rating
    }

    pub fn domain_name(&self) -> (r: &str)
        ensures
            r@ == self.domain_name@,
    {
        self.domain_name.as_str()
    }

    pub fn category_id(&self) -> (r: u64)
        ensures
            r == self.category_id,
    {
        self.category_id
    }

    pub fn version(&self) -> (r: &str)
        ensures
            r@ == self.version@,
    {
        self.version.as_str()
    }

    pub fn endorsements(&self) -> (r: u64)
        ensures
            r == self.endorsement_count,
    {
        self.endorsement_count
    }

    /// The creation instant, in Unix seconds.
    pub fn created_at(&self) -> (r: i64)
        ensures
            r == self.created_timestamp,
    {
        self.created_timestamp
    }

    /// The last-update instant, in Unix seconds.
    pub fn updated_at(&self) -> (r: i64)
        ensures
            r == self.updated_timestamp,
    {
        self.updated_timestamp
    }

    pub fn author(&self) -> (r: &str)
        ensures
            r@ == self.author@,
    {
        self.author.as_str()
    }

    pub fn uploaded_by(&self) -> (r: &str)
        ensures
            r@ == self.uploaded_by@,
    {
        self.uploaded_by.as_str()
    }

    pub fn uploaded_by_profile_url(&self) -> (r: &str)
        ensures
            r@ == self.uploaded_users_profile_url@,
    {
        self.uploaded_users_profile_url.as_str()
    }

    pub fn adult_content(&self) -> (r: bool)
        ensures
            r == self.contains_adult_content,
    {
        self.contains_adult_content
    }

    pub fn available(&self) -> (r: bool)
        ensures
            r == self.available,
    {
        self.available
    }

    pub fn endorsement(&self) -> (r: &EndorsementInfo)
        ensures
            r == &self.endorsement,
    {
        &self.endorsement
    }
}

} // verus!
