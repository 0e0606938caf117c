//! The boundary with the test runner: the local inventory, the arguments
//! that select a batch, and the results read back from its event stream.
use vstd::prelude::*;
use vstd::string::*;

use crate::error::KnapsackError;
use crate::models::{views, Test, TestResult, TestView};

verus! {

/// One test binary of the inventory, with the names of its test cases.
pub struct SuiteListing {
    pub package_name: String,
    pub binary_name: String,
    pub test_names: Vec<String>,
}

/// The tests of one binary, in listing order.
pub open spec fn suite_tests(s: SuiteListing) -> Seq<TestView> {
    s.test_names@.map_values(
        |n: String| TestView { package: s.package_name@, binary: s.binary_name@, name: n@ },
    )
}

/// The tests of every binary, binary after binary.
pub open spec fn inventory(suites: Seq<SuiteListing>) -> Seq<TestView>
    decreases suites.len(),
{
    if suites.len() == 0 {
        Seq::empty()
    } else {
        inventory(suites.drop_last()) + suite_tests(suites.last())
    }
}

/// Flattens the listing into tests, keeping its order.
pub fn inventory_from_suites(suites: &Vec<SuiteListing>) -> (r: Vec<Test>)
    ensures
        views(r@) == inventory(suites@),
{
    let mut out: Vec<Test> = Vec::new();
    let mut i: usize = 0;
    while i < suites.len()
        invariant
            i <= suites@.len(),
            views(out@) == inventory(suites@.take(i as int)),
        decreases suites@.len() - i,
    {
        let suite = &suites[i];
        let ghost before = views(out@);
        let mut k: usize = 0;
        while k < suite.test_names.len()
            invariant
                *suite == suites@[i as int],
                k <= suite.test_names@.len(),
                views(out@) == before + suite_tests(*suite).take(k as int),
            decreases suite.test_names@.len() - k,
        {
            let t = Test {
                package_name: suite.package_name.clone(),
                binary_name: suite.binary_name.clone(),
                test_name: suite.test_names[k].clone(),
            };
            proof {
                assert(views(out@.push(t)) =~= views(out@).push(t@));
                assert(suite_tests(*suite).take(k + 1) =~= suite_tests(*suite).take(k as int).push(
                    t@,
                ));
            }
            out.push(t);
            k = k + 1;
        }
        proof {
            assert(suite_tests(*suite).take(k as int) =~= suite_tests(*suite));
            assert(suites@.take(i + 1).drop_last() =~= suites@.take(i as int));
        }
        i = i + 1;
    }
    proof {
        assert(suites@.take(i as int) =~= suites@);
    }
    out
}

/// `-E <filter>` for each test, in order.
pub open spec fn filter_args(tests: Seq<TestView>) -> Seq<Seq<char>>
    decreases tests.len(),
{
    if tests.len() == 0 {
        Seq::empty()
    } else {
        filter_args(tests.drop_last()) + seq![seq!['-', 'E'], tests.last().runner_filter_expr()]
    }
}

pub open spec fn string_views(s: Seq<String>) -> Seq<Seq<char>> {
    s.map_values(|x: String| x@)
}

/// The runner arguments that select exactly the given tests.
pub fn runner_filter_args(tests: &Vec<Test>) -> (r: Vec<String>)
    ensures
        string_views(r@) == filter_args(views(tests@)),
{
    let mut out: Vec<String> = Vec::new();
    let mut i: usize = 0;
    proof {
        assert(views(tests@.take(0)) =~= Seq::<TestView>::empty());
        assert(string_views(out@) =~= Seq::<Seq<char>>::empty());
    }
    while i < tests.len()
        invariant
            i <= tests@.len(),
            string_views(out@) == filter_args(views(tests@.take(i as int))),
        decreases tests@.len() - i,
    {
        let mut filter = tests[i].to_nextest_filter();
        let ghost before = out@;
        let ghost added = filter@;
        out.append(&mut filter);
        proof {
            assert(views(tests@.take(i + 1)).drop_last() =~= views(tests@.take(i as int)));
            assert(views(tests@.take(i + 1)).last() == tests@[i as int]@);
            assert(string_views(out@) =~= string_views(before) + seq![added[0]@, added[1]@]);
        }
        i = i + 1;
    }
    proof {
        assert(tests@.take(i as int) =~= tests@);
    }
    out
}

/// One event of the runner's structured output.
pub struct RunnerEvent {
    /// `type`: `test` for an event about a single test.
    pub kind: String,
    /// `event`: `ok` for a test that passed.
    pub event: String,
    /// The runner's name of the test, `unit::group$case`.
    pub name: String,
    /// Bit pattern of `exec_time` in seconds, as in `TestResult`.
    pub exec_time_bits: u64,
}

impl RunnerEvent {
    pub open spec fn is_pass(self) -> bool {
        self.kind@ == "test"@ && self.event@ == "ok"@
    }
}

/// The test, among the last of `tests` to bear it, whose runner name is `name`.
pub open spec fn lookup_runner_name(tests: Seq<Test>, name: Seq<char>) -> Option<TestView>
    decreases tests.len(),
{
    if tests.len() == 0 {
        None
    } else if tests.last()@.runner_name() == name {
        Some(tests.last()@)
    } else {
        lookup_runner_name(tests.drop_last(), name)
    }
}

/// The results the events report, in order: one for each passing test;
/// the name of the first passing test not among `tests` otherwise.
pub open spec fn collected(tests: Seq<Test>, events: Seq<RunnerEvent>) -> Result<
    Seq<(TestView, u64)>,
    Seq<char>,
>
    decreases events.len(),
{
    if events.len() == 0 {
        Ok(Seq::empty())
    } else {
        match collected(tests, events.drop_last()) {
            Err(n) => Err(n),
            Ok(acc) => {
                let e = events.last();
                if !e.is_pass() {
                    Ok(acc)
                } else {
                    match lookup_runner_name(tests, e.name@) {
                        None => Err(e.name@),
                        Some(t) => Ok(acc.push((t, e.exec_time_bits))),
                    }
                }
            },
        }
    }
}

pub open spec fn result_views(results: Seq<TestResult>) -> Seq<(TestView, u64)> {
    results.map_values(|r: TestResult| (r.test@, r.exec_time_bits))
}

fn find_by_runner_name(tests: &Vec<Test>, name: &String) -> (r: Option<usize>)
    ensures
        match r {
            Some(k) => k < tests@.len() && lookup_runner_name(tests@, name@) == Some(tests@[k as int]@),
            None => lookup_runner_name(tests@, name@) is None,
        },
{
    let mut j: usize = tests.len();
    proof {
        assert(tests@.take(j as int) =~= tests@);
    }
    while j > 0
        invariant
            j <= tests@.len(),
            lookup_runner_name(tests@, name@) == lookup_runner_name(tests@.take(j as int), name@),
        decreases j,
    {
        proof {
            assert(tests@.take(j as int).drop_last() =~= tests@.take(j - 1));
        }
        if tests[j - 1].to_nextest_name() == *name {
            return Some(j - 1);
        }
        j = j - 1;
    }
    proof {
        assert(tests@.take(0) =~= Seq::<Test>::empty());
    }
    None
}

fn is_pass_event(e: &RunnerEvent) -> (r: bool)
    ensures
        r == e.is_pass(),
{
    e.kind == String::from_str("test") && e.event == String::from_str("ok")
}

/// The results of a batch: each passing test, matched back to the test that
/// was asked for by its runner name. Tests that fail or are skipped give none.
pub fn collect_results(tests: &Vec<Test>, events: &Vec<RunnerEvent>) -> (r: Result<
    Vec<TestResult>,
    KnapsackError,
>)
    ensures
        match r {
            Ok(results) => collected(tests@, events@) == Ok::<Seq<(TestView, u64)>, Seq<char>>(
                result_views(results@),
            ),
            Err(e) => collected(tests@, events@) is Err && e is UnknownTest && e->UnknownTest_0@
                == collected(tests@, events@)->Err_0,
        },
{
    let mut out: Vec<TestResult> = Vec::new();
    let mut i: usize = 0;
    proof {
        assert(events@.take(0) =~= Seq::<RunnerEvent>::empty());
        assert(result_views(out@) =~= Seq::<(TestView, u64)>::empty());
    }
    while i < events.len()
        invariant
            i <= events@.len(),
            collected(tests@, events@.take(i as int)) == Ok::<Seq<(TestView, u64)>, Seq<char>>(
                result_views(out@),
            ),
        decreases events@.len() - i,
    {
        let e = &events[i];
        proof {
            assert(events@.take(i + 1).drop_last() =~= events@.take(i as int));
        }
        if is_pass_event(e) {
            match find_by_runner_name(tests, &e.name) {
                None => {
                    proof {
                        lemma_collected_err_stays(tests@, events@, i + 1);
                    }
                    return Err(KnapsackError::UnknownTest(e.name.clone()));
                },
                Some(k) => {
                    let t = &tests[k];
                    let res = TestResult {
                        test: Test {
                            package_name: t.package_name.clone(),
                            binary_name: t.binary_name.clone(),
                            test_name: t.test_name.clone(),
                        },
                        exec_time_bits: e.exec_time_bits,
                    };
                    proof {
                        assert(result_views(out@.push(res)) =~= result_views(out@).push(
                            (res.test@, res.exec_time_bits),
                        ));
                    }
                    out.push(res);
                },
            }
        }
        i = i + 1;
    }
    proof {
        assert(events@.take(i as int) =~= events@);
    }
    Ok(out)
}

/// Once a prefix of the events names an unknown test, every longer prefix
/// reports that same name.
proof fn lemma_collected_err_stays(tests: Seq<Test>, events: Seq<RunnerEvent>, k: int)
    requires
        0 <= k <= events.len(),
        collected(tests, events.take(k)) is Err,
    ensures
        collected(tests, events) == collected(tests, events.take(k)),
    decreases events.len() - k,
{
    if k < events.len() {
        assert(events.take(k + 1).drop_last() =~= events.take(k));
        lemma_collected_err_stays(tests, events, k + 1);
    } else {
        assert(events.take(k) =~= events);
    }
}

} // verus!
