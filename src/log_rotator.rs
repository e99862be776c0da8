use vstd::prelude::*;
use vstd::string::*;

verus! {

/// A log directory given without a rotation policy.
pub enum LogPath {
    Path(String),
}

impl From<String> for LogPath {
    fn from(path: String) -> (r: LogPath) {
        LogPath::Path(path)
    }
}

impl vstd::std_specs::convert::FromSpecImpl<String> for LogPath {
    open spec fn obeys_from_spec() -> bool {
        true
    }

    open spec fn from_spec(path: String) -> LogPath {
        LogPath::Path(path)
    }
}

/// What `set_log_path` installs: a directory alone, or a directory with a
/// rotation policy.
pub enum LogConfig {
    Path(LogPath),
    Rotator(LogRotatorConfig),
}

/// A rotation policy: the directory it applies to, the size in bytes above
/// which the active file is rotated, and the age in milliseconds above which
/// it is rotated.
pub struct LogRotatorConfig {
    pub log_path: String,
    pub max_size: u64,
    pub max_time_ms: u64,
}

impl LogRotatorConfig {
    /// Builds a policy from its three parts.
    pub fn new(log_path: String, max_size: u64, max_time_ms: u64) -> (r: Self)
        ensures
            r.log_path == log_path,
            r.max_size == max_size,
            r.max_time_ms == max_time_ms,
    {
        LogRotatorConfig { log_path, max_size, max_time_ms }
    }

    /// A copy with the same fields.
    pub fn copy(&self) -> (r: Self)
        ensures
            r == *self,
    {
        LogRotatorConfig {
            log_path: self.log_path.clone(),
            max_size: self.max_size,
            max_time_ms: self.max_time_ms,
        }
    }
}

/// What the host learned of the active log file before a write: its size in
/// bytes and, where the modification time could be read and lies in the
/// past, the milliseconds elapsed since then.
#[derive(Clone, Copy, Debug, PartialEq, Eq, Structural)]
pub struct FileMeta {
    pub size: u64,
    pub age_ms: Option<u64>,
}

/// The active file must be rotated when it is larger than the size limit or
/// older than the age limit: whichever limit is hit first.
pub open spec fn rotation_due(meta: FileMeta, policy: LogRotatorConfig) -> bool {
    meta.size > policy.max_size || match meta.age_ms {
        Some(age) => age > policy.max_time_ms,
        None => false,
    }
}

/// Decides whether the active file must be renamed aside before the next write.
pub fn should_rotate(meta: &FileMeta, policy: &LogRotatorConfig) -> (r: bool)
    ensures
        r == rotation_due(*meta, *policy),
{
    if meta.size > policy.max_size {
        return true;
    }
    match meta.age_ms {
        Some(age) => age > policy.max_time_ms,
        None => false,
    }
}

pub open spec fn log_suffix() -> Seq<char> {
    seq!['.', 'l', 'o', 'g']
}

pub open spec fn rot_infix() -> Seq<char> {
    seq!['_', 'r', 'o', 't', '-']
}

pub open spec fn ends_with_log(s: Seq<char>) -> bool {
    s.len() >= 4 && s.subrange(s.len() - 4, s.len() as int) == log_suffix()
}

/// `s` with every trailing `.log` removed.
pub open spec fn trim_log_suffix(s: Seq<char>) -> Seq<char>
    decreases s.len(),
{
    if ends_with_log(s) {
        trim_log_suffix(s.subrange(0, s.len() - 4))
    } else {
        s
    }
}

pub open spec fn digit_char(d: nat) -> char {
    if d == 0 {
        '0'
    } else if d == 1 {
        '1'
    } else if d == 2 {
        '2'
    } else if d == 3 {
        '3'
    } else if d == 4 {
        '4'
    } else if d == 5 {
        '5'
    } else if d == 6 {
        '6'
    } else if d == 7 {
        '7'
    } else if d == 8 {
        '8'
    } else {
        '9'
    }
}

/// The decimal digits of `n`, without leading zeros.
pub open spec fn decimal(n: nat) -> Seq<char>
    decreases n,
{
    if n < 10 {
        seq![digit_char(n)]
    } else {
        decimal(n / 10).push(digit_char(n % 10))
    }
}

/// The name that the active file `base` takes when it is rotated aside for
/// the `i`-th time: `<base without .log>_rot-<i>.log`.
pub open spec fn rotated_name(base: Seq<char>, i: nat) -> Seq<char> {
    trim_log_suffix(base) + rot_infix() + decimal(i) + log_suffix()
}

/// The views of a list of file names.
pub open spec fn names_of(v: Seq<String>) -> Seq<Seq<char>> {
    v.map_values(|s: String| s@)
}

/// `i` is the smallest positive index whose rotated name is not taken.
pub open spec fn is_next_rotation(base: Seq<char>, taken: Seq<Seq<char>>, i: nat) -> bool {
    &&& i >= 1
    &&& !taken.contains(rotated_name(base, i))
    &&& forall|j: nat| 1 <= j < i ==> taken.contains(#[trigger] rotated_name(base, j))
}

fn ends_with_log_at(s: &str, end: usize) -> (r: bool)
    requires
        end <= s@.len(),
    ensures
        r == ends_with_log(s@.subrange(0, end as int)),
{
    let ghost t = s@.subrange(0, end as int);
    if end < 4 {
        return false;
    }
    let a = s.get_char(end - 4);
    let b = s.get_char(end - 3);
    let c = s.get_char(end - 2);
    let d = s.get_char(end - 1);
    let r = a == '.' && b == 'l' && c == 'o' && d == 'g';
    proof {
        let tail = t.subrange(t.len() - 4, t.len() as int);
        if r {
            assert(tail =~= log_suffix());
        } else {
            if tail == log_suffix() {
                assert(tail[0] == a && tail[1] == b && tail[2] == c && tail[3] == d);
            }
        }
    }
    r
}

/// Removes every trailing `.log` from `s`, as `str::trim_end_matches(".log")` does.
pub fn trim_log(s: &str) -> (r: &str)
    ensures
        r@ == trim_log_suffix(s@),
{
    let n = s.unicode_len();
    let mut end: usize = n;
    assert(s@.subrange(0, n as int) =~= s@);
    while ends_with_log_at(s, end)
        invariant
            end <= s@.len(),
            n == s@.len(),
            trim_log_suffix(s@.subrange(0, end as int)) == trim_log_suffix(s@),
        decreases end,
    {
        assert(s@.subrange(0, end as int).subrange(0, end - 4) =~= s@.subrange(0, end - 4));
        end = end - 4;
    }
    s.substring_char(0, end)
}

fn digit_str(d: usize) -> (r: &'static str)
    requires
        d < 10,
    ensures
        r@ == seq![digit_char(d as nat)],
{
    proof {
        reveal_strlit("0");
        reveal_strlit("1");
        reveal_strlit("2");
        reveal_strlit("3");
        reveal_strlit("4");
        reveal_strlit("5");
        reveal_strlit("6");
        reveal_strlit("7");
        reveal_strlit("8");
        reveal_strlit("9");
    }
    if d == 0 {
        "0"
    } else if d == 1 {
        "1"
    } else if d == 2 {
        "2"
    } else if d == 3 {
        "3"
    } else if d == 4 {
        "4"
    } else if d == 5 {
        "5"
    } else if d == 6 {
        "6"
    } else if d == 7 {
        "7"
    } else if d == 8 {
        "8"
    } else {
        "9"
    }
}

/// Renders `n` in decimal.
pub fn decimal_string(n: usize) -> (r: String)
    ensures
        r@ == decimal(n as nat),
    decreases n,
{
    if n < 10 {
        String::from_str(digit_str(n))
    } else {
        let mut s = decimal_string(n / 10);
        s.append(digit_str(n % 10));
        s
    }
}

/// The name that `filename` takes when rotated aside for the `index`-th time.
pub fn rotated_file_name(filename: &str, index: usize) -> (r: String)
    ensures
        r@ == rotated_name(filename@, index as nat),
{
    let mut r = String::from_str(trim_log(filename));
    r.append("_rot-");
    let digits = decimal_string(index);
    r.append(digits.as_str());
    r.append(".log");
    proof {
        reveal_strlit("_rot-");
        reveal_strlit(".log");
    }
    assert(r@ =~= rotated_name(filename@, index as nat));
    r
}

fn contains_name(names: &Vec<String>, name: &String) -> (r: bool)
    ensures
        r == names_of(names@).contains(name@),
{
    let mut i: usize = 0;
    while i < names.len()
        invariant
            i <= names@.len(),
            forall|j: int| 0 <= j < i ==> names@[j]@ != name@,
        decreases names@.len() - i,
    {
        if names[i] == *name {
            assert(names_of(names@)[i as int] == name@);
            return true;
        }
        i = i + 1;
    }
    proof {
        if names_of(names@).contains(name@) {
            let k = choose|k: int| 0 <= k < names_of(names@).len() && names_of(names@)[k] == name@;
            assert(names@[k]@ == name@);
        }
    }
    false
}

/// The smallest positive index whose rotated name for `filename` is not
/// among `existing`, the names of the files present when the decision is made.
pub fn next_rotation_index(filename: &str, existing: &Vec<String>) -> (r: usize)
    requires
        existing@.len() < usize::MAX,
    ensures
        is_next_rotation(filename@, names_of(existing@), r as nat),
{
    let ghost taken = names_of(existing@);
    let mut i: usize = 1;
    loop
        invariant
            1 <= i <= existing@.len() + 1,
            existing@.len() < usize::MAX,
            taken == names_of(existing@),
            forall|j: nat| 1 <= j < i ==> taken.contains(#[trigger] rotated_name(filename@, j)),
        decreases existing@.len() + 1 - i,
    {
        let candidate = rotated_file_name(filename, i);
        if !contains_name(existing, &candidate) {
            return i;
        }
        proof {
            lemma_rotated_names_fit(filename@, taken, i as nat);
            assert(taken.len() == existing@.len());
        }
        i = i + 1;
    }
}

/// The name under which the active file is rotated aside: the first
/// `<base>_rot-<i>.log` that none of `existing` holds.
pub fn next_rotated_name(filename: &str, existing: &Vec<String>) -> (r: String)
    requires
        existing@.len() < usize::MAX,
    ensures
        exists|i: nat|
            is_next_rotation(filename@, names_of(existing@), i) && r@ == #[trigger] rotated_name(
                filename@,
                i,
            ),
{
    let i = next_rotation_index(filename, existing);
    rotated_file_name(filename, i)
}

// ---------------------------------------------------------------------
// Lemmas: distinct indices give distinct names, so only finitely many
// rotated names can be taken.
// ---------------------------------------------------------------------

proof fn lemma_decimal_nonempty(n: nat)
    ensures
        decimal(n).len() >= 1,
    decreases n,
{
    if n >= 10 {
        lemma_decimal_nonempty(n / 10);
    }
}

proof fn lemma_decimal_injective(a: nat, b: nat)
    requires
        decimal(a) == decimal(b),
    ensures
        a == b,
    decreases a,
{
    if a < 10 && b < 10 {
        assert(decimal(a)[0] == digit_char(a));
    } else if a < 10 {
        lemma_decimal_nonempty(b / 10);
        assert(decimal(b).len() >= 2);
    } else if b < 10 {
        lemma_decimal_nonempty(a / 10);
        assert(decimal(a).len() >= 2);
    } else {
        let da = decimal(a / 10);
        let db = decimal(b / 10);
        assert(decimal(a).last() == digit_char(a % 10));
        assert(decimal(b).last() == digit_char(b % 10));
        assert(decimal(a).drop_last() =~= da);
        assert(decimal(b).drop_last() =~= db);
        lemma_decimal_injective(a / 10, b / 10);
    }
}

/// Distinct indices give distinct rotated names.
pub proof fn lemma_rotated_name_injective(base: Seq<char>, a: nat, b: nat)
    requires
        rotated_name(base, a) == rotated_name(base, b),
    ensures
        a == b,
{
    let p = trim_log_suffix(base) + rot_infix();
    let ra = rotated_name(base, a);
    let rb = rotated_name(base, b);
    assert(ra.subrange(p.len() as int, ra.len() - 4) =~= decimal(a));
    assert(rb.subrange(p.len() as int, rb.len() - 4) =~= decimal(b));
    lemma_decimal_injective(a, b);
}

spec fn rotated_set(base: Seq<char>, k: nat) -> Set<Seq<char>>
    decreases k,
{
    if k == 0 {
        Set::empty()
    } else {
        rotated_set(base, (k - 1) as nat).insert(rotated_name(base, k))
    }
}

proof fn lemma_rotated_set(base: Seq<char>, k: nat)
    ensures
        rotated_set(base, k).finite(),
        rotated_set(base, k).len() == k,
        forall|x: Seq<char>|
            rotated_set(base, k).contains(x) <==> exists|j: nat|
                1 <= j <= k && x == #[trigger] rotated_name(base, j),
    decreases k,
{
    if k > 0 {
        let k1 = (k - 1) as nat;
        lemma_rotated_set(base, k1);
        if rotated_set(base, k1).contains(rotated_name(base, k)) {
            let j = choose|j: nat| 1 <= j <= k1 && rotated_name(base, k) == rotated_name(base, j);
            lemma_rotated_name_injective(base, k, j);
        }
        assert forall|x: Seq<char>|
            rotated_set(base, k).contains(x) implies exists|j: nat|
                1 <= j <= k && x == #[trigger] rotated_name(base, j) by {
            if x != rotated_name(base, k) {
                assert(rotated_set(base, k1).contains(x));
            }
        }
        assert forall|x: Seq<char>|
            (exists|j: nat| 1 <= j <= k && x == #[trigger] rotated_name(base, j)) implies rotated_set(
            base,
            k,
        ).contains(x) by {
            let j = choose|j: nat| 1 <= j <= k && x == #[trigger] rotated_name(base, j);
            if j < k {
                assert(rotated_set(base, k1).contains(x));
            }
        }
    }
}

/// If the rotated names for indices 1 to `k` are all taken, at least `k`
/// names are taken.
proof fn lemma_rotated_names_fit(base: Seq<char>, taken: Seq<Seq<char>>, k: nat)
    requires
        forall|j: nat| 1 <= j <= k ==> taken.contains(#[trigger] rotated_name(base, j)),
    ensures
        k <= taken.len(),
{
    lemma_rotated_set(base, k);
    let s = rotated_set(base, k);
    assert forall|x: Seq<char>| s.contains(x) implies taken.to_set().contains(x) by {
        let j = choose|j: nat| 1 <= j <= k && x == #[trigger] rotated_name(base, j);
        assert(taken.contains(rotated_name(base, j)));
    }
    vstd::set_lib::lemma_len_subset(s, taken.to_set());
    taken.lemma_cardinality_of_set();
}

// ---------------------------------------------------------------------
// Laws of rotation.
// ---------------------------------------------------------------------

/// At most one index is the next rotation index, so the rotated name that
/// `next_rotated_name` picks is fully determined.
pub proof fn lemma_next_rotation_unique(base: Seq<char>, taken: Seq<Seq<char>>, a: nat, b: nat)
    requires
        is_next_rotation(base, taken, a),
        is_next_rotation(base, taken, b),
    ensures
        a == b,
{
    if a < b {
        assert(taken.contains(rotated_name(base, a)));
    } else if b < a {
        assert(taken.contains(rotated_name(base, b)));
    }
}

/// A file larger than the size limit is rotated, and when no rotated file of
/// its name exists yet it is renamed to `_rot-1.log`.
pub proof fn lemma_oversized_file_rotates_to_first(
    meta: FileMeta,
    policy: LogRotatorConfig,
    base: Seq<char>,
    taken: Seq<Seq<char>>,
)
    requires
        meta.size > policy.max_size,
        forall|j: nat| j >= 1 ==> !taken.contains(#[trigger] rotated_name(base, j)),
    ensures
        rotation_due(meta, policy),
        is_next_rotation(base, taken, 1),
{
}

/// The age limit alone triggers rotation: a file under the size limit whose
/// age exceeds the age limit is rotated.
pub proof fn lemma_age_limit_alone_rotates(meta: FileMeta, policy: LogRotatorConfig)
    requires
        meta.size <= policy.max_size,
        meta.age_ms.is_some(),
        meta.age_ms.unwrap() > policy.max_time_ms,
    ensures
        rotation_due(meta, policy),
{
}

/// Rotating twice against the same base name gives `_rot-1.log` and then
/// `_rot-2.log`: the second rotation never reuses the first name.
pub proof fn lemma_second_rotation_takes_next_name(base: Seq<char>, taken: Seq<Seq<char>>)
    requires
        forall|j: nat| j >= 1 ==> !taken.contains(#[trigger] rotated_name(base, j)),
    ensures
        is_next_rotation(base, taken, 1),
        is_next_rotation(base, taken.push(rotated_name(base, 1)), 2),
        rotated_name(base, 1) != rotated_name(base, 2),
{
    let after = taken.push(rotated_name(base, 1));
    assert(after[taken.len() as int] == rotated_name(base, 1));
    assert(after.contains(rotated_name(base, 1)));
    if after.contains(rotated_name(base, 2)) {
        let k = choose|k: int| 0 <= k < after.len() && after[k] == rotated_name(base, 2);
        if k < taken.len() {
            assert(taken[k] == after[k]);
            assert(taken.contains(rotated_name(base, 2)));
        } else {
            lemma_rotated_name_injective(base, 1, 2);
        }
    }
    if rotated_name(base, 1) == rotated_name(base, 2) {
        lemma_rotated_name_injective(base, 1, 2);
    }
}

} // verus!
