//! The project configuration of the first generation, and the check of the
//! versions it names.
use vstd::prelude::*;
use crate::text::chars_of;

verus! {

/// The project configuration.
#[derive(Clone, Debug)]
pub struct Config {
    pub project: Project,
    pub stack: Stack,
    pub ports: Ports,
    pub paths: Paths,
    pub versions: Versions,
    pub mysql: Mysql,
}

/// The project's name and edition.
#[derive(Clone, Debug)]
pub struct Project {
    pub name: String,
    pub edition: String,
}

/// The parts the project is made of.
#[derive(Clone, Debug)]
pub struct Stack {
    pub frontend: String,
    pub backend: String,
    pub database: String,
}

/// The ports on which the project's services listen.
#[derive(Clone, Debug)]
pub struct Ports {
    pub php_port: u16,
    pub laravel_port: u16,
    pub mysql_port: u16,
    pub vue_port: u16,
}

/// Where the project's backend and frontend live.
#[derive(Clone, Debug)]
pub struct Paths {
    pub backend_dir: String,
    pub frontend_dir: String,
}

/// The versions of the programs the project uses.
#[derive(Clone, Debug)]
pub struct Versions {
    pub bun_version: String,
    pub vue_version: String,
    pub laravel_version: String,
    pub php_version: String,
    pub mysql_version: String,
}

/// The project's MySQL database and credentials.
#[derive(Clone, Debug)]
pub struct Mysql {
    pub db: String,
    pub host: String,
    pub user: String,
    pub pass: String,
}

/// Why a configuration's versions are refused.
#[derive(Clone, Copy, Debug, PartialEq, Eq, Structural)]
pub enum VersionError {
    /// The PHP version is below `8.5.4`.
    PhpTooOld,
    /// The Laravel version is below `13`.
    LaravelTooOld,
}

// ---------------------------------------------------------------------------
// Version numbers
// ---------------------------------------------------------------------------

/// `c` is a decimal digit.
pub open spec fn is_digit(c: char) -> bool {
    '0' <= c && c <= '9'
}

/// The value of the decimal digit `c`.
pub open spec fn digit_value(c: char) -> nat {
    (c as int - '0' as int) as nat
}

/// Reading a version's text `s` from the left: the values of the parts
/// finished (each ended by a `.`), the value of the part under way, and
/// whether its leading digits go on. A part's value is that of its leading
/// digits, `0` where it has none; what follows them (`-rc`, ...) is passed
/// over.
pub open spec fn version_scan(s: Seq<char>) -> (Seq<nat>, nat, bool)
    decreases s.len(),
{
    if s.len() == 0 {
        (seq![], 0, true)
    } else {
        let (done, cur, digits) = version_scan(s.drop_last());
        let c = s.last();
        if c == '.' {
            (done.push(cur), 0, true)
        } else if digits && is_digit(c) {
            (done, cur * 10 + digit_value(c), true)
        } else {
            (done, cur, false)
        }
    }
}

/// The numbers of a version, part by part: `"8.5.4"` is `[8, 5, 4]`.
pub open spec fn version_parts(s: Seq<char>) -> Seq<nat> {
    version_scan(s).0.push(version_scan(s).1)
}

/// The part `i` of a version, `0` past its last part.
pub open spec fn part_at(p: Seq<nat>, i: int) -> nat {
    if 0 <= i < p.len() { p[i] } else { 0 }
}

/// The version `a` is below `b` when compared part by part from `i` on,
/// numerically, missing parts counting as `0`.
pub open spec fn version_below_from(a: Seq<nat>, b: Seq<nat>, i: int) -> bool
    decreases a.len() + b.len() - i,
{
    if i < 0 || (i >= a.len() && i >= b.len()) {
        false
    } else if part_at(a, i) < part_at(b, i) {
        true
    } else if part_at(a, i) > part_at(b, i) {
        false
    } else {
        version_below_from(a, b, i + 1)
    }
}

/// The version `a` is below `b`, compared part by part, numerically.
pub open spec fn version_below(a: Seq<nat>, b: Seq<nat>) -> bool {
    version_below_from(a, b, 0)
}

/// The verdict on a configuration's versions, each compared part by part as
/// numbers: PHP must be `8.5.4` or later, then Laravel `13` or later.
pub open spec fn versions_verdict(php: Seq<char>, laravel: Seq<char>) -> Result<(), VersionError> {
    if version_below(version_parts(php), seq![8nat, 5nat, 4nat]) {
        Err(VersionError::PhpTooOld)
    } else if version_below(version_parts(laravel), seq![13nat]) {
        Err(VersionError::LaravelTooOld)
    } else {
        Ok(())
    }
}

/// A number held at most at `1000`: the versions are compared with numbers
/// below that, for which the held number decides as the number itself does.
pub open spec fn capped(x: nat) -> nat {
    if x < 1000 { x } else { 1000 }
}

/// The parts `p`, each held at most at `1000`.
pub open spec fn capped_parts(p: Seq<nat>) -> Seq<nat> {
    p.map_values(|x: nat| capped(x))
}

proof fn lemma_capped_step(c: nat, d: nat)
    requires
        d < 10,
    ensures
        capped(capped(c) * 10 + d) == capped(c * 10 + d),
{
    if c >= 1000 {
        assert(c * 10 + d >= 1000) by (nonlinear_arith)
            requires
                c >= 1000,
        ;
        assert(capped(c) * 10 + d >= 1000);
    }
}

proof fn lemma_capped_compare(a: Seq<nat>, b: Seq<nat>, i: int)
    requires
        forall|k: int| 0 <= k < b.len() ==> #[trigger] b[k] < 1000,
    ensures
        version_below_from(capped_parts(a), b, i) == version_below_from(a, b, i),
    decreases a.len() + b.len() - i,
{
    let ca = capped_parts(a);
    if i < 0 || (i >= a.len() && i >= b.len()) {
    } else {
        assert(part_at(ca, i) == capped(part_at(a, i)));
        if part_at(a, i) == part_at(b, i) {
            lemma_capped_compare(a, b, i + 1);
        }
    }
}

proof fn lemma_push_capped(v: Seq<u64>, x: u64, p: Seq<nat>, c: nat)
    requires
        v.map_values(|y: u64| y as nat) == capped_parts(p),
        x as nat == capped(c),
    ensures
        v.push(x).map_values(|y: u64| y as nat) == capped_parts(p.push(c)),
{
    let l = v.push(x).map_values(|y: u64| y as nat);
    let r = capped_parts(p.push(c));
    assert(v.map_values(|y: u64| y as nat).len() == capped_parts(p).len());
    assert(l.len() == r.len());
    assert forall|k: int| 0 <= k < l.len() implies l[k] == r[k] by {
        if k < v.len() {
            assert(l[k] == v.map_values(|y: u64| y as nat)[k]);
            assert(r[k] == capped_parts(p)[k]);
        }
    }
    assert(l =~= r);
}

/// The numbers of the version `s`, each held at most at `1000`.
fn version_numbers(s: &str) -> (v: Vec<u64>)
    ensures
        v@.map_values(|x: u64| x as nat) == capped_parts(version_parts(s@)),
{
    let chars = chars_of(s);
    let mut done: Vec<u64> = Vec::new();
    let mut cur: u64 = 0;
    let mut digits = true;
    let mut i: usize = 0;
    while i < chars.len()
        invariant
            i <= chars.len(),
            chars@ == s@,
            done@.map_values(|x: u64| x as nat) == capped_parts(version_scan(s@.take(i as int)).0),
            cur as nat == capped(version_scan(s@.take(i as int)).1),
            digits == version_scan(s@.take(i as int)).2,
        decreases chars.len() - i,
    {
        let c = chars[i];
        let ghost before = version_scan(s@.take(i as int));
        proof {
            assert(s@.take(i + 1).drop_last() =~= s@.take(i as int));
            assert(s@.take(i + 1).last() == c);
        }
        if c == '.' {
            proof {
                lemma_push_capped(done@, cur, before.0, before.1);
            }
            done.push(cur);
            cur = 0;
            digits = true;
        } else if digits && '0' <= c && c <= '9' {
            let d: u64 = ((c as u32) - 48) as u64;
            proof {
                lemma_capped_step(before.1, digit_value(c));
            }
            if cur >= 1000 {
                cur = 1000;
            } else {
                let next: u64 = cur * 10 + d;
                cur = if next > 1000 { 1000 } else { next };
            }
        } else {
            digits = false;
        }
        i = i + 1;
    }
    proof {
        assert(s@.take(chars.len() as int) =~= s@);
    }
    proof {
        let sc = version_scan(s@);
        lemma_push_capped(done@, cur, sc.0, sc.1);
    }
    done.push(cur);
    done
}

/// Whether the version with the numbers `v` is below the version `t`,
/// compared part by part.
fn numbers_below(v: &Vec<u64>, t: &Vec<u64>) -> (r: bool)
    ensures
        r == version_below(v@.map_values(|x: u64| x as nat), t@.map_values(|x: u64| x as nat)),
{
    let ghost a = v@.map_values(|x: u64| x as nat);
    let ghost b = t@.map_values(|x: u64| x as nat);
    let mut i: usize = 0;
    while i < v.len() || i < t.len()
        invariant
            a == v@.map_values(|x: u64| x as nat),
            b == t@.map_values(|x: u64| x as nat),
            i <= v.len() || i <= t.len(),
            version_below_from(a, b, 0) == version_below_from(a, b, i as int),
        decreases v.len() + t.len() - i,
    {
        let x: u64 = if i < v.len() { v[i] } else { 0 };
        let y: u64 = if i < t.len() { t[i] } else { 0 };
        proof {
            assert(x as nat == part_at(a, i as int));
            assert(y as nat == part_at(b, i as int));
        }
        if x < y {
            return true;
        }
        if x > y {
            return false;
        }
        i = i + 1;
    }
    false
}

/// Whether the version `s` is below the version with the numbers `t`, each
/// below `1000`.
fn version_below_exec(s: &str, t: Vec<u64>) -> (r: bool)
    requires
        forall|k: int| 0 <= k < t.len() ==> #[trigger] t@[k] < 1000,
    ensures
        r == version_below(version_parts(s@), t@.map_values(|x: u64| x as nat)),
{
    let v = version_numbers(s);
    let ghost b = t@.map_values(|x: u64| x as nat);
    proof {
        assert forall|k: int| 0 <= k < b.len() implies #[trigger] b[k] < 1000 by {
            assert(b[k] == t@[k] as nat);
        }
        lemma_capped_compare(version_parts(s@), b, 0);
    }
    numbers_below(&v, &t)
}

/// Checks the versions of the configuration: PHP `8.5.4` or later, then
/// Laravel `13` or later, each compared part by part as numbers.
pub fn validate_versions(config: &Config) -> (r: Result<(), VersionError>)
    ensures
        r == versions_verdict(config.versions.php_version@, config.versions.laravel_version@),
{
    let php_min: Vec<u64> = vec![8, 5, 4];
    proof {
        assert(php_min@.map_values(|x: u64| x as nat) =~= seq![8nat, 5nat, 4nat]);
    }
    if version_below_exec(&config.versions.php_version, php_min) {
        return Err(VersionError::PhpTooOld);
    }
    let laravel_min: Vec<u64> = vec![13];
    proof {
        assert(laravel_min@.map_values(|x: u64| x as nat) =~= seq![13nat]);
    }
    if version_below_exec(&config.versions.laravel_version, laravel_min) {
        return Err(VersionError::LaravelTooOld);
    }
    Ok(())
}

} // verus!
