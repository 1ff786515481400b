//! Investigations as the evidence bucket lists them: one folder per
//! investigation, named `<date>.<time>_<instance id>[_...]/`.
use vstd::prelude::*;
use crate::error::ClaireError;
use crate::text::{concat_str, find_char, find_from, join, joined, lemma_find_from_bounds, owned, slice, views};

verus! {

/// A point in time, as `chrono` reports the fields of a `NaiveDateTime`.
#[derive(Debug, Clone, Copy, PartialEq, Eq)]
pub struct Timestamp {
    pub year: i32,
    pub month: u32,
    pub day: u32,
    pub hour: u32,
    pub minute: u32,
    pub second: u32,
    pub nanosecond: u32,
}

/// What `chrono::NaiveDateTime::parse_from_str(s, fmt)` gives: the fields of
/// the parsed time, or nothing when it reports an error.
pub uninterp spec fn parsed_date_time(s: Seq<char>, fmt: Seq<char>) -> Option<Timestamp>;

/// Calls `chrono::NaiveDateTime::parse_from_str` and reads the fields of the
/// result. The contract names the result `parsed_date_time(s, fmt)`; which
/// texts parse is left to `chrono`.
#[verifier::external_body]
fn parse_date_time(s: &str, fmt: &str) -> (r: Option<Timestamp>)
    ensures
        r == parsed_date_time(s@, fmt@),
{
    match chrono::NaiveDateTime::parse_from_str(s, fmt) {
        Ok(t) => Some(Timestamp {
            year: chrono::Datelike::year(&t),
            month: chrono::Datelike::month(&t),
            day: chrono::Datelike::day(&t),
            hour: chrono::Timelike::hour(&t),
            minute: chrono::Timelike::minute(&t),
            second: chrono::Timelike::second(&t),
            nanosecond: chrono::Timelike::nanosecond(&t),
        }),
        Err(_) => None,
    }
}

/// The format of the date part of an investigation id: `%F.%T`.
pub open spec fn id_date_format() -> Seq<char> {
    "%F.%T"@
}

/// Position of the first `_` of an id (or its length).
pub open spec fn first_sep(id: Seq<char>) -> int {
    find_from(id, '_', 0)
}

/// The id has at least one `_`.
pub open spec fn has_separator(id: Seq<char>) -> bool {
    first_sep(id) < id.len()
}

/// The date part: everything before the first `_`.
pub open spec fn date_part(id: Seq<char>) -> Seq<char> {
    id.subrange(0, first_sep(id))
}

/// The instance part: everything between the first `_` and the next one (or the end).
pub open spec fn instance_part(id: Seq<char>) -> Seq<char> {
    id.subrange(first_sep(id) + 1, find_from(id, '_', first_sep(id) + 1))
}

/// The time an id names, if its date part parses.
pub open spec fn id_time(id: Seq<char>) -> Option<Timestamp> {
    parsed_date_time(date_part(id), id_date_format())
}

/// An investigation, known by its folder name in the evidence bucket.
#[derive(Debug, Clone)]
pub struct Investigation {
    /// The instance under investigation.
    pub instance_id: String,
    /// When the investigation started.
    pub dt: Timestamp,
    /// The investigation id, which is also its folder in the evidence bucket.
    pub bucket: String,
}

impl Investigation {
    /// `self` is the investigation that `id` names.
    pub open spec fn named_by(self, id: Seq<char>) -> bool {
        &&& self.bucket@ == id
        &&& self.instance_id@ == instance_part(id)
        &&& id_time(id) == Some(self.dt)
    }

    /// The investigation named by `id`. The id must hold a `_` (without one
    /// the instance part does not exist); the date part must parse with
    /// `%F.%T`, else the result is `BadInvestigationDate` with that part.
    pub fn new(investigation_id: &str) -> (r: Result<Investigation, ClaireError>)
        requires
            has_separator(investigation_id@),
        ensures
            match r {
                Ok(inv) => inv.named_by(investigation_id@),
                Err(e) => id_time(investigation_id@) is None && (e matches ClaireError::BadInvestigationDate(d)
                    && d@ == date_part(investigation_id@)),
            },
    {
        let ghost id = investigation_id@;
        proof {
            lemma_find_from_bounds(id, '_', 0);
        }
        let n = investigation_id.unicode_len();
        let a = find_char(investigation_id, '_', 0);
        proof {
            lemma_find_from_bounds(id, '_', a + 1);
        }
        let b = find_char(investigation_id, '_', a + 1);
        let date = slice(investigation_id, 0, a);
        let instance_id = slice(investigation_id, a + 1, b);
        match parse_date_time(date.as_str(), "%F.%T") {
            Some(dt) => Ok(Investigation { instance_id, dt, bucket: owned(investigation_id) }),
            None => Err(ClaireError::BadInvestigationDate(date)),
        }
    }

    /// An equal copy.
    pub fn copied(&self) -> (r: Investigation)
        ensures
            r == *self,
    {
        Investigation { instance_id: self.instance_id.clone(), dt: self.dt, bucket: self.bucket.clone() }
    }
}

/// An investigation is determined by its id: two investigations named by
/// the same id agree on the folder, the instance and the time.
pub proof fn lemma_id_determines_investigation(a: Investigation, b: Investigation, id: Seq<char>)
    requires
        a.named_by(id),
        b.named_by(id),
    ensures
        a.bucket@ == b.bucket@,
        a.instance_id@ == b.instance_id@,
        a.dt == b.dt,
{
}

/// A listed folder name with its trailing character (the `/`) removed.
pub open spec fn folder_id(prefix: Seq<char>) -> Seq<char> {
    prefix.drop_last()
}

/// A listed folder name that can be turned into an investigation: it is not
/// empty, its last character is one byte long (so that dropping the last
/// byte drops exactly that character), and what remains holds a `_`.
pub open spec fn usable_folder(prefix: Seq<char>) -> bool {
    &&& prefix.len() > 0
    &&& (prefix.last() as u32) < 0x80
    &&& has_separator(folder_id(prefix))
}

/// All listed folders have a name.
pub open spec fn all_named(prefixes: Seq<Option<String>>) -> bool {
    forall|i: int| 0 <= i < prefixes.len() ==> (#[trigger] prefixes[i]) is Some
}

/// The date of the `j`-th listed folder parses.
pub open spec fn folder_parses(prefixes: Seq<Option<String>>, j: int) -> bool {
    id_time(folder_id(prefixes[j]->0@)) is Some
}

/// Reading the listing never meets a folder that cannot be turned into an
/// investigation: a folder without a name is reported before any is parsed,
/// and each folder that is reached (all before it parsed) is usable.
pub open spec fn readable_listing(prefixes: Seq<Option<String>>) -> bool {
    all_named(prefixes) ==> forall|i: int|
        0 <= i < prefixes.len() && (forall|j: int| 0 <= j < i ==> #[trigger] folder_parses(prefixes, j))
            ==> usable_folder(#[trigger] prefixes[i]->0@)
}

/// `r` is what reading the listing gives: `PrefixMissing` when a folder has
/// no name; else the investigations named by the folders (without their
/// trailing `/`), in order, or the date error of the first folder whose
/// date does not parse.
pub open spec fn lists(prefixes: Seq<Option<String>>, r: Result<Vec<Investigation>, ClaireError>) -> bool {
    &&& !all_named(prefixes) ==> (r matches Err(ClaireError::PrefixMissing))
    &&& all_named(prefixes) ==> match r {
        Ok(v) => v@.len() == prefixes.len() && forall|i: int|
            0 <= i < v@.len() ==> (#[trigger] v@[i]).named_by(folder_id(prefixes[i]->0@)),
        Err(e) => exists|k: int|
            0 <= k < prefixes.len() && !folder_parses(prefixes, k) && (forall|j: int|
                0 <= j < k ==> #[trigger] folder_parses(prefixes, j)) && (e matches ClaireError::BadInvestigationDate(d)
                && d@ == date_part(folder_id(prefixes[k]->0@))),
    }
}

/// The investigations named by the listed folders of the evidence bucket.
///
/// A folder without a name gives `PrefixMissing` (before anything is
/// parsed). Otherwise each folder name, without its trailing `/`, is parsed
/// in order; the first whose date does not parse gives its error.
pub fn investigations_from_prefixes(prefixes: &Vec<Option<String>>) -> (r: Result<
    Vec<Investigation>,
    ClaireError,
>)
    requires
        readable_listing(prefixes@),
    ensures
        lists(prefixes@, r),
{
    let mut i: usize = 0;
    while i < prefixes.len()
        invariant
            i <= prefixes.len(),
            forall|j: int| 0 <= j < i ==> (#[trigger] prefixes@[j]) is Some,
        decreases prefixes.len() - i,
    {
        if prefixes[i].is_none() {
            return Err(ClaireError::PrefixMissing);
        }
        i = i + 1;
    }
    let mut v: Vec<Investigation> = Vec::new();
    let mut i: usize = 0;
    while i < prefixes.len()
        invariant
            i <= prefixes.len(),
            all_named(prefixes@),
            readable_listing(prefixes@),
            v@.len() == i,
            forall|j: int| 0 <= j < i ==> (#[trigger] v@[j]).named_by(folder_id(prefixes@[j]->0@)),
        decreases prefixes.len() - i,
    {
        let p = match &prefixes[i] {
            Some(p) => p,
            None => {
                return Err(ClaireError::PrefixMissing);
            },
        };
        assert forall|j: int| 0 <= j < i implies #[trigger] folder_parses(prefixes@, j) by {
            assert(v@[j].named_by(folder_id(prefixes@[j]->0@)));
        }
        assert(usable_folder(prefixes@[i as int]->0@));
        let n = p.unicode_len();
        let id = slice(p.as_str(), 0, n - 1);
        assert(id@ =~= folder_id(p@));
        match Investigation::new(id.as_str()) {
            Ok(inv) => {
                v.push(inv);
            },
            Err(e) => {
                assert(!folder_parses(prefixes@, i as int));
                assert(e matches ClaireError::BadInvestigationDate(d) && d@ == date_part(
                    folder_id(prefixes@[i as int]->0@),
                ));
                return Err(e);
            },
        }
        i = i + 1;
    }
    Ok(v)
}

/// The listed folder name at `i` can be turned into an investigation
/// (checked without parsing it).
fn folder_usable(p: &String) -> (r: bool)
    ensures
        r == usable_folder(p@),
{
    let n = p.unicode_len();
    if n == 0 || (p.get_char(n - 1) as u32) >= 0x80 {
        return false;
    }
    let id = slice(p.as_str(), 0, n - 1);
    assert(id@ =~= folder_id(p@));
    let id_len = id.unicode_len();
    find_char(id.as_str(), '_', 0) < id_len
}

/// Reads the listing if that can be done: `None` when it would meet a
/// folder that cannot be turned into an investigation (see
/// `readable_listing`), else what `investigations_from_prefixes` gives.
/// Each folder is parsed at most once.
pub fn read_listing(prefixes: &Vec<Option<String>>) -> (r: Option<
    Result<Vec<Investigation>, ClaireError>,
>)
    ensures
        r is None <==> !readable_listing(prefixes@),
        r matches Some(res) ==> lists(prefixes@, res),
{
    // Without a name somewhere, nothing is parsed.
    let mut i: usize = 0;
    while i < prefixes.len()
        invariant
            i <= prefixes.len(),
            forall|j: int| 0 <= j < i ==> (#[trigger] prefixes@[j]) is Some,
        decreases prefixes.len() - i,
    {
        if prefixes[i].is_none() {
            return Some(investigations_from_prefixes(prefixes));
        }
        i = i + 1;
    }
    // The first folder that cannot be read, if any.
    let mut u: usize = 0;
    while u < prefixes.len()
        invariant
            u <= prefixes.len(),
            all_named(prefixes@),
            forall|j: int| 0 <= j < u ==> usable_folder(#[trigger] prefixes@[j]->0@),
        ensures
            u == prefixes.len() || !usable_folder(prefixes@[u as int]->0@),
        decreases prefixes.len() - u,
    {
        let usable = match &prefixes[u] {
            Some(p) => folder_usable(p),
            None => false,
        };
        if !usable {
            break;
        }
        u = u + 1;
    }
    if u == prefixes.len() {
        return Some(investigations_from_prefixes(prefixes));
    }
    // The listing is readable only if a folder before `u` fails to parse.
    let mut j: usize = 0;
    while j < u
        invariant
            u < prefixes.len(),
            j <= u,
            all_named(prefixes@),
            !usable_folder(prefixes@[u as int]->0@),
            forall|k: int| 0 <= k < u ==> usable_folder(#[trigger] prefixes@[k]->0@),
            forall|k: int| 0 <= k < j ==> #[trigger] folder_parses(prefixes@, k),
        decreases u - j,
    {
        let p = match &prefixes[j] {
            Some(p) => p,
            None => {
                return None;
            },
        };
        assert(usable_folder(prefixes@[j as int]->0@));
        let n = p.unicode_len();
        let id = slice(p.as_str(), 0, n - 1);
        assert(id@ =~= folder_id(p@));
        match Investigation::new(id.as_str()) {
            Ok(_) => {},
            Err(e) => {
                assert(!folder_parses(prefixes@, j as int));
                assert(readable_listing(prefixes@)) by {
                    assert forall|k: int|
                        0 <= k < prefixes@.len() && (forall|m: int| 0 <= m < k ==> #[trigger] folder_parses(prefixes@, m))
                        implies usable_folder(#[trigger] prefixes@[k]->0@) by {
                        if k > j {
                            assert(folder_parses(prefixes@, j as int));
                        }
                    }
                }
                return Some(Err(e));
            },
        }
        j = j + 1;
    }
    assert(!readable_listing(prefixes@)) by {
        assert(forall|k: int| 0 <= k < u ==> #[trigger] folder_parses(prefixes@, k));
    }
    None
}

/// The one investigation that a prefix selects: several matches give
/// `MultipleInvestigations` with the prefix and the ids joined by newlines,
/// none gives `InvestigationNotFound`.
pub fn select_investigation(prefix: &str, investigations: &Vec<Investigation>) -> (r: Result<
    Investigation,
    ClaireError,
>)
    ensures
        investigations@.len() == 1 ==> r == Ok::<Investigation, ClaireError>(investigations@[0]),
        investigations@.len() == 0 ==> (r matches Err(ClaireError::InvestigationNotFound(p)) && p@
            == prefix@),
        investigations@.len() > 1 ==> (r matches Err(ClaireError::MultipleInvestigations(p, ids))
            && p@ == prefix@ && ids@ == joined(
            investigations@.map_values(|inv: Investigation| inv.bucket@),
            "\n"@,
        )),
{
    if investigations.len() > 1 {
        let mut buckets: Vec<String> = Vec::new();
        let mut i: usize = 0;
        while i < investigations.len()
            invariant
                i <= investigations.len(),
                buckets@.len() == i,
                forall|k: int| 0 <= k < i ==> #[trigger] buckets@[k]@ == investigations@[k].bucket@,
            decreases investigations.len() - i,
        {
            buckets.push(investigations[i].bucket.clone());
            i = i + 1;
        }
        assert(views(buckets@) =~= investigations@.map_values(|inv: Investigation| inv.bucket@));
        let ids = join(&buckets, "\n");
        return Err(ClaireError::MultipleInvestigations(owned(prefix), ids));
    }
    if investigations.len() == 0 {
        return Err(ClaireError::InvestigationNotFound(owned(prefix)));
    }
    Ok(investigations[0].copied())
}

/// The arguments of the `aws s3 sync` run that downloads an investigation's
/// folder of `bucket` into `dest/<folder>/`, leaving the memory image out
/// when `skip_memory` is set.
pub fn download_arguments(bucket: &str, folder: &str, dest: &str, skip_memory: bool) -> (r: Vec<String>)
    ensures
        views(r@) == download_argument_texts(bucket@, folder@, dest@, skip_memory),
        r@.len() == if skip_memory {
            6int
        } else {
            4int
        },
        r@[0]@ == "s3"@,
        r@[1]@ == "sync"@,
        r@[2]@ == "s3://"@ + bucket@ + "/"@ + folder@,
        r@[3]@ == dest@ + "/"@ + folder@ + "/"@,
        skip_memory ==> r@[4]@ == "--exclude"@ && r@[5]@ == "*/memory.lime.compressed"@,
{
    let source = concat_str(concat_str(concat_str("s3://", bucket).as_str(), "/").as_str(), folder);
    let target = concat_str(concat_str(concat_str(dest, "/").as_str(), folder).as_str(), "/");
    let mut r: Vec<String> = Vec::new();
    r.push(owned("s3"));
    r.push(owned("sync"));
    r.push(source);
    r.push(target);
    if skip_memory {
        r.push(owned("--exclude"));
        r.push(owned("*/memory.lime.compressed"));
    }
    proof {
        assert(views(r@) =~= download_argument_texts(bucket@, folder@, dest@, skip_memory));
    }
    r
}

/// The sync reads the investigation's folder of the bucket and writes into a
/// folder of `dest` of the same name: each of the two paths is a fixed
/// prefix, the folder name with every character kept, and a fixed suffix.
pub proof fn lemma_download_keeps_folder(bucket: Seq<char>, folder: Seq<char>, dest: Seq<char>, skip_memory: bool)
    ensures
        ({
            let args = download_argument_texts(bucket, folder, dest, skip_memory);
            let source_prefix = "s3://"@ + bucket + "/"@;
            let target_prefix = dest + "/"@;
            &&& args.len() == if skip_memory { 6int } else { 4int }
            &&& args[0] == "s3"@ && args[1] == "sync"@
            &&& args[2].len() == source_prefix.len() + folder.len()
            &&& args[2].subrange(0, source_prefix.len() as int) == source_prefix
            &&& args[2].subrange(source_prefix.len() as int, args[2].len() as int) == folder
            &&& args[3].len() == target_prefix.len() + folder.len() + 1
            &&& args[3].subrange(0, target_prefix.len() as int) == target_prefix
            &&& args[3].subrange(target_prefix.len() as int, args[3].len() - 1) == folder
            &&& args[3].last() == '/'
        }),
{
    let args = download_argument_texts(bucket, folder, dest, skip_memory);
    let source_prefix = "s3://"@ + bucket + "/"@;
    let target_prefix = dest + "/"@;
    reveal_strlit("/");
    assert(args[2] =~= source_prefix + folder);
    assert(args[3] =~= target_prefix + folder + "/"@);
    assert((source_prefix + folder).subrange(0, source_prefix.len() as int) =~= source_prefix);
    assert((source_prefix + folder).subrange(source_prefix.len() as int, (source_prefix + folder).len() as int)
        =~= folder);
    assert((target_prefix + folder + "/"@).subrange(0, target_prefix.len() as int) =~= target_prefix);
    assert((target_prefix + folder + "/"@).subrange(target_prefix.len() as int, (target_prefix + folder + "/"@).len()
        - 1) =~= folder);
}

/// The texts of the `aws s3 sync` arguments that download an investigation.
pub open spec fn download_argument_texts(bucket: Seq<char>, folder: Seq<char>, dest: Seq<char>, skip_memory: bool) -> Seq<Seq<char>> {
    let sync = seq!["s3"@, "sync"@, "s3://"@ + bucket + "/"@ + folder, dest + "/"@ + folder + "/"@];
    if skip_memory {
        sync + seq!["--exclude"@, "*/memory.lime.compressed"@]
    } else {
        sync
    }
}

} // verus!
