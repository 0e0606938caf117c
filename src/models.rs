//! The identity of a single test and its textual forms.
use vstd::prelude::*;
use vstd::string::*;

use crate::error::KnapsackError;

verus! {

/// The wire delimiter between the three components of a test identity.
pub open spec fn is_delimiter(c: char) -> bool {
    c == '|'
}

/// Number of delimiters in `s`.
pub open spec fn delimiter_count(s: Seq<char>) -> nat
    decreases s.len(),
{
    if s.len() == 0 {
        0
    } else {
        delimiter_count(s.drop_last()) + if is_delimiter(s.last()) {
            1nat
        } else {
            0nat
        }
    }
}

/// `s` holds no delimiter.
pub open spec fn delimiter_free(s: Seq<char>) -> bool {
    forall|i: int| 0 <= i < s.len() ==> !is_delimiter(#[trigger] s[i])
}

/// Abstract identity of a test: (unit, group, case).
pub struct TestView {
    pub package: Seq<char>,
    pub binary: Seq<char>,
    pub name: Seq<char>,
}

impl TestView {
    /// No component holds the delimiter, so the wire form can be split back.
    pub open spec fn well_formed(self) -> bool {
        delimiter_free(self.package) && delimiter_free(self.binary) && delimiter_free(self.name)
    }

    /// `unit|group|case`
    pub open spec fn wire(self) -> Seq<char> {
        self.package + seq!['|'] + self.binary + seq!['|'] + self.name
    }

    /// `unit::group$case`, the runner's display name.
    pub open spec fn runner_name(self) -> Seq<char> {
        self.package + seq![':', ':'] + self.binary + seq!['$'] + self.name
    }

    /// `package(unit) & test(=case)`, the runner's exact-match filter expression.
    pub open spec fn runner_filter_expr(self) -> Seq<char> {
        seq!['p', 'a', 'c', 'k', 'a', 'g', 'e', '('] + self.package + seq![
            ')',
            ' ',
            '&',
            ' ',
            't',
            'e',
            's',
            't',
            '(',
            '=',
        ] + self.name + seq![')']
    }
}

/// The test whose wire form is `s`, if there is one.
pub open spec fn parse_wire(s: Seq<char>) -> Option<TestView> {
    if exists|t: TestView| t.well_formed() && t.wire() == s {
        Some(choose|t: TestView| t.well_formed() && t.wire() == s)
    } else {
        None
    }
}

#[derive(Clone, Debug, PartialEq, Eq, PartialOrd, Ord)]
pub struct Test {
    pub package_name: String,
    pub binary_name: String,
    pub test_name: String,
}

impl View for Test {
    type V = TestView;

    open spec fn view(&self) -> TestView {
        TestView { package: self.package_name@, binary: self.binary_name@, name: self.test_name@ }
    }
}

pub proof fn lemma_delimiter_count_concat(a: Seq<char>, b: Seq<char>)
    ensures
        delimiter_count(a + b) == delimiter_count(a) + delimiter_count(b),
    decreases b.len(),
{
    if b.len() == 0 {
        assert(a + b =~= a);
    } else {
        assert((a + b).drop_last() =~= a + b.drop_last());
        lemma_delimiter_count_concat(a, b.drop_last());
    }
}

pub proof fn lemma_delimiter_free_count(s: Seq<char>)
    ensures
        delimiter_free(s) <==> delimiter_count(s) == 0,
    decreases s.len(),
{
    if s.len() > 0 {
        lemma_delimiter_free_count(s.drop_last());
        if delimiter_free(s) {
            assert(delimiter_free(s.drop_last()));
        }
        if delimiter_count(s) == 0 {
            assert forall|i: int| 0 <= i < s.len() implies !is_delimiter(#[trigger] s[i]) by {
                if i < s.len() - 1 {
                    assert(s[i] == s.drop_last()[i]);
                }
            }
        }
    }
}

proof fn lemma_delimiter_count_one()
    ensures
        delimiter_count(seq!['|']) == 1,
{
    let d = seq!['|'];
    assert(d.drop_last() =~= Seq::<char>::empty());
    assert(delimiter_count(d.drop_last()) == 0);
    assert(d.last() == '|');
}

/// A well-formed test's wire form holds exactly two delimiters.
pub proof fn lemma_wire_delimiter_count(t: TestView)
    requires
        t.well_formed(),
    ensures
        delimiter_count(t.wire()) == 2,
{
    lemma_delimiter_free_count(t.package);
    lemma_delimiter_free_count(t.binary);
    lemma_delimiter_free_count(t.name);
    lemma_delimiter_count_one();
    let d = seq!['|'];
    lemma_delimiter_count_concat(t.package, d);
    lemma_delimiter_count_concat(t.package + d, t.binary);
    lemma_delimiter_count_concat(t.package + d + t.binary, d);
    lemma_delimiter_count_concat(t.package + d + t.binary + d, t.name);
}

/// A delimiter-free head is fixed by the position of the first delimiter.
proof fn lemma_first_field_unique(a1: Seq<char>, r1: Seq<char>, a2: Seq<char>, r2: Seq<char>)
    requires
        delimiter_free(a1),
        delimiter_free(a2),
        a1 + seq!['|'] + r1 == a2 + seq!['|'] + r2,
    ensures
        a1 == a2,
        r1 == r2,
{
    let s = a1 + seq!['|'] + r1;
    if a1.len() < a2.len() {
        assert(s[a1.len() as int] == '|');
        assert(s[a1.len() as int] == a2[a1.len() as int]);
    } else if a2.len() < a1.len() {
        assert(s[a2.len() as int] == '|');
        assert(s[a2.len() as int] == a1[a2.len() as int]);
    }
    assert(a1 =~= s.subrange(0, a1.len() as int));
    assert(a2 =~= s.subrange(0, a2.len() as int));
    assert(r1 =~= s.subrange(a1.len() as int + 1, s.len() as int));
    assert(r2 =~= s.subrange(a2.len() as int + 1, s.len() as int));
}

/// Two well-formed tests with the same wire form are the same test.
pub proof fn lemma_wire_injective(t1: TestView, t2: TestView)
    requires
        t1.well_formed(),
        t2.well_formed(),
        t1.wire() == t2.wire(),
    ensures
        t1 == t2,
{
    let d = seq!['|'];
    assert(t1.wire() =~= t1.package + d + (t1.binary + d + t1.name));
    assert(t2.wire() =~= t2.package + d + (t2.binary + d + t2.name));
    lemma_first_field_unique(t1.package, t1.binary + d + t1.name, t2.package, t2.binary + d + t2.name);
    lemma_first_field_unique(t1.binary, t1.name, t2.binary, t2.name);
}

/// Decoding the wire form of a test whose components hold no delimiter gives
/// back that test.
pub proof fn lemma_wire_round_trip(t: TestView)
    requires
        t.well_formed(),
    ensures
        parse_wire(t.wire()) == Some(t),
{
    let s = t.wire();
    assert(exists|u: TestView| u.well_formed() && u.wire() == s);
    let c = choose|u: TestView| u.well_formed() && u.wire() == s;
    lemma_wire_injective(c, t);
}

/// A token whose number of delimiter-separated segments is not three
/// decodes to nothing.
pub proof fn lemma_wire_segment_count(s: Seq<char>)
    requires
        delimiter_count(s) + 1 != 3,
    ensures
        parse_wire(s) is None,
{
    if exists|u: TestView| u.well_formed() && u.wire() == s {
        let u = choose|u: TestView| u.well_formed() && u.wire() == s;
        lemma_wire_delimiter_count(u);
    }
}

impl Test {
    /// The wire token `unit|group|case`.
    pub fn to_knapsack_file(&self) -> (r: String)
        ensures
            r@ == self@.wire(),
    {
        proof {
            reveal_strlit("|");
        }
        let mut s = self.package_name.clone();
        s.append("|");
        s.append(self.binary_name.as_str());
        s.append("|");
        s.append(self.test_name.as_str());
        s
    }

    /// The runner's display name `unit::group$case`.
    pub fn to_nextest_name(&self) -> (r: String)
        ensures
            r@ == self@.runner_name(),
    {
        proof {
            reveal_strlit("::");
            reveal_strlit("$");
        }
        let mut s = self.package_name.clone();
        s.append("::");
        s.append(self.binary_name.as_str());
        s.append("$");
        s.append(self.test_name.as_str());
        s
    }

    /// Runner arguments that select exactly this test within its unit.
    pub fn to_nextest_filter(&self) -> (r: Vec<String>)
        ensures
            r@.len() == 2,
            r@[0]@ == seq!['-', 'E'],
            r@[1]@ == self@.runner_filter_expr(),
    {
        proof {
            reveal_strlit("-E");
            reveal_strlit("package(");
            reveal_strlit(") & test(=");
            reveal_strlit(")");
        }
        let mut expr = String::from_str("package(");
        expr.append(self.package_name.as_str());
        expr.append(") & test(=");
        expr.append(self.test_name.as_str());
        expr.append(")");
        let mut r: Vec<String> = Vec::new();
        r.push(String::from_str("-E"));
        r.push(expr);
        proof {
            assert(expr@ =~= self@.runner_filter_expr());
        }
        r
    }

    /// Decodes a wire token: exactly two delimiters, splitting it into
    /// unit, group and case.
    pub fn from_knapsack_file(line: &str) -> (r: Result<Test, KnapsackError>)
        ensures
            match r {
                Ok(t) => parse_wire(line@) == Some(t@),
                Err(e) => parse_wire(line@) is None && e is Parse && e->Parse_0@ == line@,
            },
    {
        let n = line.unicode_len();
        let mut i: usize = 0;
        let mut count: usize = 0;
        let mut first: usize = 0;
        let mut second: usize = 0;
        while i < n
            invariant
                n == line@.len(),
                i <= n,
                count == delimiter_count(line@.take(i as int)),
                count <= i,
                count >= 1 ==> first < i && is_delimiter(line@[first as int]) && delimiter_count(
                    line@.take(first as int),
                ) == 0,
                count >= 2 ==> first < second < i && is_delimiter(line@[second as int])
                    && delimiter_count(line@.take(second as int)) == 1,
            decreases n - i,
        {
            let c = line.get_char(i);
            proof {
                assert(line@.take(i + 1).drop_last() =~= line@.take(i as int));
            }
            if c == '|' {
                if count == 0 {
                    first = i;
                } else if count == 1 {
                    second = i;
                }
                count = count + 1;
            }
            i = i + 1;
        }
        proof {
            assert(line@.take(n as int) =~= line@);
        }
        if count != 2 {
            proof {
                lemma_wire_segment_count(line@);
            }
            return Err(KnapsackError::Parse(String::from_str(line)));
        }
        let package = line.substring_char(0, first);
        let binary = line.substring_char(first + 1, second);
        let name = line.substring_char(second + 1, n);
        let t = Test {
            package_name: String::from_str(package),
            binary_name: String::from_str(binary),
            test_name: String::from_str(name),
        };
        proof {
            let s = line@;
            let d = seq!['|'];
            assert(s.take(first as int) =~= package@);
            assert(s.take(second as int) =~= package@ + d + binary@);
            assert(s =~= s.take(second as int) + d + name@);
            assert(s =~= t@.wire());
            lemma_delimiter_count_one();
            lemma_delimiter_count_concat(package@, d);
            lemma_delimiter_count_concat(package@ + d, binary@);
            lemma_delimiter_count_concat(s.take(second as int), d);
            lemma_delimiter_count_concat(s.take(second as int) + d, name@);
            lemma_delimiter_free_count(package@);
            lemma_delimiter_free_count(binary@);
            lemma_delimiter_free_count(name@);
            lemma_wire_round_trip(t@);
        }
        Ok(t)
    }
}

/// A test that passed, with how long it ran: the IEEE-754 bit pattern of the
/// duration in seconds (as `f64::to_bits` gives it), carried unchanged.
#[derive(Clone, Debug, PartialEq, Eq)]
pub struct TestResult {
    pub test: Test,
    pub exec_time_bits: u64,
}

/// Each path of `paths` is the wire form of the test at the same place in
/// `tests`.
pub open spec fn decodes_to(paths: Seq<String>, tests: Seq<Test>) -> bool {
    &&& paths.len() == tests.len()
    &&& forall|i: int| 0 <= i < paths.len() ==> parse_wire(#[trigger] paths[i]@) == Some(tests[i]@)
}

/// `e` reports the first path of `paths` that is not a wire token.
pub open spec fn reports_first_bad_path(paths: Seq<String>, e: KnapsackError) -> bool {
    exists|i: int|
        0 <= i < paths.len() && parse_wire(#[trigger] paths[i]@) is None && (forall|j: int|
            0 <= j < i ==> parse_wire(#[trigger] paths[j]@) is Some) && e is Parse && e->Parse_0@
            == paths[i]@
}

pub open spec fn views(tests: Seq<Test>) -> Seq<TestView> {
    tests.map_values(|t: Test| t@)
}

/// The tests that `paths` encode, in order, if every path is a wire token.
pub open spec fn decoded_views(paths: Seq<String>) -> Option<Seq<TestView>> {
    if forall|i: int| 0 <= i < paths.len() ==> parse_wire(#[trigger] paths[i]@) is Some {
        Some(paths.map_values(|p: String| parse_wire(p@)->Some_0))
    } else {
        None
    }
}

pub proof fn lemma_decodes_to_views(paths: Seq<String>, tests: Seq<Test>)
    requires
        decodes_to(paths, tests),
    ensures
        decoded_views(paths) == Some(views(tests)),
{
    assert(forall|i: int| 0 <= i < paths.len() ==> parse_wire(#[trigger] paths[i]@) is Some);
    assert(paths.map_values(|p: String| parse_wire(p@)->Some_0) =~= views(tests));
}

pub proof fn lemma_bad_path_no_views(paths: Seq<String>, e: KnapsackError)
    requires
        reports_first_bad_path(paths, e),
    ensures
        decoded_views(paths) is None,
{
}

/// Decodes every path, in order; fails on the first that is not a wire token.
pub fn decode_files(paths: &Vec<String>) -> (r: Result<Vec<Test>, KnapsackError>)
    ensures
        match r {
            Ok(tests) => decodes_to(paths@, tests@),
            Err(e) => reports_first_bad_path(paths@, e),
        },
{
    let mut out: Vec<Test> = Vec::new();
    let mut i: usize = 0;
    while i < paths.len()
        invariant
            i <= paths@.len(),
            out@.len() == i,
            forall|j: int| 0 <= j < i ==> parse_wire(#[trigger] paths@[j]@) == Some(out@[j]@),
        decreases paths@.len() - i,
    {
        match Test::from_knapsack_file(paths[i].as_str()) {
            Ok(t) => out.push(t),
            Err(e) => {
                assert(parse_wire(paths@[i as int]@) is None);
                return Err(e);
            },
        }
        i = i + 1;
    }
    Ok(out)
}

} // verus!
