//! A memoizing evaluator around a caller-supplied computation.
//!
//! [`Cacher`] owns a computation on `u32` together with a table of the outputs
//! it has already produced. Each distinct input reaches the computation at most
//! once; every later query for that input is answered from the table.

use std::collections::HashMap;
use vstd::prelude::*;
use vstd::string::StringExecFns;
use crate::text::{decimal_nat, u64_to_string};

verus! {

broadcast use vstd::std_specs::hash::group_hash_axioms;

/// Wraps a computation on `u32` and remembers every output it has produced.
pub struct Cacher<T> where T: Fn(u32) -> u32 {
    calculation: T,
    values: HashMap<u32, u32>,
    /// History of the inputs handed to `calculation`, oldest first.
    invoked: Ghost<Seq<u32>>,
}

/// `f` can produce at most one output for the input `x`.
pub open spec fn single_valued<T: Fn(u32) -> u32>(f: T, x: u32) -> bool {
    forall|a: u32, b: u32| call_ensures(f, (x,), a) && call_ensures(f, (x,), b) ==> a == b
}

impl<T> View for Cacher<T> where T: Fn(u32) -> u32 {
    type V = Map<u32, u32>;

    /// The remembered input/output pairs.
    closed spec fn view(&self) -> Map<u32, u32> {
        self.values@
    }
}

impl<T> Cacher<T> where T: Fn(u32) -> u32 {
    /// The wrapped computation.
    pub closed spec fn computation(&self) -> T {
        self.calculation
    }

    /// The inputs on which the computation has been invoked, oldest first.
    pub closed spec fn invocations(&self) -> Seq<u32> {
        self.invoked@
    }

    /// Every remembered pair was produced by the computation, and the
    /// remembered inputs are exactly the invoked ones, each invoked once.
    pub open spec fn wf(&self) -> bool {
        &&& self@.dom().finite()
        &&& self.invocations().no_duplicates()
        &&& forall|k: u32| self.invocations().contains(k) <==> #[trigger] self@.contains_key(k)
        &&& forall|k: u32| #[trigger]
            self@.contains_key(k) ==> call_ensures(self.computation(), (k,), self@[k])
    }

    /// One query: `self` answers `arg` with `out` and becomes `post`.
    ///
    /// A remembered input is answered from the table and nothing changes. Any
    /// other input is handed to the computation once, and the pair is
    /// remembered.
    pub open spec fn evaluates(&self, arg: u32, out: u32, post: &Self) -> bool {
        &&& post.computation() == self.computation()
        &&& if self@.contains_key(arg) {
            &&& out == self@[arg]
            &&& post@ == self@
            &&& post.invocations() == self.invocations()
        } else {
            &&& call_ensures(self.computation(), (arg,), out)
            &&& post@ == self@.insert(arg, out)
            &&& post.invocations() == self.invocations().push(arg)
        }
    }

    /// An evaluator for `calculation` that has not seen any input yet.
    pub fn new(calculation: T) -> (c: Self)
        ensures
            c.wf(),
            c.computation() == calculation,
            c@ == Map::<u32, u32>::empty(),
            c.invocations() == Seq::<u32>::empty(),
    {
        Cacher { calculation, values: HashMap::new(), invoked: Ghost(Seq::empty()) }
    }

    /// The output of the computation for `arg`, computed on the first query
    /// for `arg` and replayed from the table on every later one.
    pub fn value(&mut self, arg: u32) -> (out: u32)
        requires
            old(self).wf(),
            old(self)@.contains_key(arg) || call_requires(old(self).computation(), (arg,)),
        ensures
            final(self).wf(),
            old(self).evaluates(arg, out, final(self)),
    {
        match self.values.get(&arg) {
            Some(v) => *v,
            None => {
                let v = (self.calculation)(arg);
                self.values.insert(arg, v);
                proof {
                    self.invoked@ = self.invoked@.push(arg);
                    old(self).lemma_evaluates_wf(arg, v, self);
                }
                v
            },
        }
    }

    /// A run of queries in a row: `states[i]` answers `args[i]` with `outs[i]`
    /// and becomes `states[i + 1]`.
    pub open spec fn runs(states: Seq<Self>, args: Seq<u32>, outs: Seq<u32>) -> bool {
        &&& states.len() == args.len() + 1
        &&& outs.len() == args.len()
        &&& forall|i: int|
            0 <= i < args.len() ==> states[i].evaluates(#[trigger] args[i], outs[i], &states[i + 1])
    }

    /// A query keeps the evaluator well-formed.
    pub proof fn lemma_evaluates_wf(&self, arg: u32, out: u32, post: &Self)
        requires
            self.wf(),
            self.evaluates(arg, out, post),
        ensures
            post.wf(),
    {
        if !self@.contains_key(arg) {
            let before = self.invocations();
            let after = before.push(arg);
            assert forall|k: u32| after.contains(k) <==> #[trigger] post@.contains_key(k) by {
                if after.contains(k) {
                    let i = choose|i: int| 0 <= i < after.len() && after[i] == k;
                    if i < before.len() {
                        assert(before.contains(k));
                    }
                }
                if k == arg {
                    assert(after[before.len() as int] == k);
                } else if before.contains(k) {
                    let i = choose|i: int| 0 <= i < before.len() && before[i] == k;
                    assert(after[i] == k);
                }
            }
        }
    }

    /// A query never forgets: every remembered pair stays as it is, and at
    /// most one pair is added.
    pub proof fn lemma_cache_grows(&self, arg: u32, out: u32, post: &Self)
        requires
            self.wf(),
            self.evaluates(arg, out, post),
        ensures
            self@.submap_of(post@),
            self@.len() <= post@.len() <= self@.len() + 1,
            post@.len() == self@.len() + 1 <==> !self@.contains_key(arg),
    {
    }

    /// Asking twice for the same input gives the same answer both times, and
    /// the second query leaves the evaluator as the first one left it: over
    /// its whole life the computation was invoked exactly once on that input.
    /// If the input was new, that one invocation is the only thing the two
    /// queries added.
    pub proof fn lemma_lookup_idempotent(
        &self,
        x: u32,
        out1: u32,
        mid: &Self,
        out2: u32,
        post: &Self,
    )
        requires
            self.wf(),
            self.evaluates(x, out1, mid),
            mid.evaluates(x, out2, post),
        ensures
            out1 == out2,
            post@ == mid@,
            post.invocations() == mid.invocations(),
            post.invocations().to_multiset().count(x) == 1,
            !self@.contains_key(x) ==> post.invocations() == self.invocations().push(x),
    {
        self.lemma_evaluates_wf(x, out1, mid);
        assert(mid@.contains_key(x));
        mid.invocations().to_multiset_ensures();
        mid.invocations().lemma_multiset_has_no_duplicates();
    }

    /// A query for `x` does not change what a query for another input `y`
    /// returns. For a `y` that is not remembered yet this rests on the
    /// computation having a single possible output for `y`.
    pub proof fn lemma_cache_isolation(
        &self,
        x: u32,
        out_x: u32,
        after_x: &Self,
        y: u32,
        out_direct: u32,
        post_direct: &Self,
        out_after: u32,
        post_after: &Self,
    )
        requires
            self.wf(),
            x != y,
            self@.contains_key(y) || single_valued(self.computation(), y),
            self.evaluates(x, out_x, after_x),
            self.evaluates(y, out_direct, post_direct),
            after_x.evaluates(y, out_after, post_after),
        ensures
            after_x@.contains_key(y) == self@.contains_key(y),
            self@.contains_key(y) ==> after_x@[y] == self@[y],
            out_after == out_direct,
    {
    }

    /// The first `n` queries of a run are a run by themselves.
    pub proof fn lemma_run_prefix(states: Seq<Self>, args: Seq<u32>, outs: Seq<u32>, n: int)
        requires
            Self::runs(states, args, outs),
            0 <= n <= args.len(),
        ensures
            Self::runs(states.take(n + 1), args.take(n), outs.take(n)),
            states.take(n + 1)[0] == states[0],
            states.take(n + 1).last() == states[n],
    {
        let states0 = states.take(n + 1);
        let args0 = args.take(n);
        let outs0 = outs.take(n);
        assert forall|i: int| 0 <= i < args0.len() implies states0[i].evaluates(
            #[trigger] args0[i],
            outs0[i],
            &states0[i + 1],
        ) by {
            assert(states[i].evaluates(args[i], outs[i], &states[i + 1]));
        }
    }

    /// Along a run of queries the evaluator stays well-formed around the same
    /// computation, its table only grows, and the invoked inputs are those
    /// invoked before the run together with those queried in it.
    pub proof fn lemma_run_invocations(states: Seq<Self>, args: Seq<u32>, outs: Seq<u32>)
        requires
            Self::runs(states, args, outs),
            states[0].wf(),
        ensures
            states.last().wf(),
            states.last().computation() == states[0].computation(),
            states[0]@.submap_of(states.last()@),
            states.last().invocations().to_set() == states[0].invocations().to_set().union(
                args.to_set(),
            ),
        decreases args.len(),
    {
        let expected = states[0].invocations().to_set().union(args.to_set());
        if args.len() == 0 {
            assert(args.to_set() =~= Set::<u32>::empty());
            assert(states.last().invocations().to_set() =~= expected);
        } else {
            let n = args.len() - 1;
            let args0 = args.take(n);
            Self::lemma_run_prefix(states, args, outs, n);
            Self::lemma_run_invocations(states.take(n + 1), args0, outs.take(n));
            let prev = states[n];
            let last = states[n + 1];
            let a = args[n];
            assert(prev.evaluates(a, outs[n], &last));
            prev.lemma_evaluates_wf(a, outs[n], &last);
            prev.lemma_cache_grows(a, outs[n], &last);
            assert forall|k: u32| #[trigger]
                last.invocations().to_set().contains(k) <==> expected.contains(k) by {
                assert(prev.invocations().to_set().contains(k) <==> (
                states[0].invocations().to_set().contains(k) || args0.to_set().contains(k)));
                assert(args.contains(k) <==> (args0.contains(k) || k == a)) by {
                    if args.contains(k) {
                        let i = choose|i: int| 0 <= i < args.len() && args[i] == k;
                        if i < n {
                            assert(args0[i] == k);
                        }
                    }
                    if args0.contains(k) {
                        let i = choose|i: int| 0 <= i < args0.len() && args0[i] == k;
                        assert(args[i] == k);
                    }
                }
                assert(last@.contains_key(k) <==> last.invocations().contains(k));
                assert(prev@.contains_key(k) <==> prev.invocations().contains(k));
                assert(prev@.contains_key(a) <==> prev.invocations().contains(a));
            }
            assert(last.invocations().to_set() =~= expected);
        }
    }

    /// Once an input is remembered, a later query for it gives the remembered
    /// output, whatever was asked in between.
    pub proof fn lemma_run_keeps_answers(states: Seq<Self>, args: Seq<u32>, outs: Seq<u32>, i: int)
        requires
            Self::runs(states, args, outs),
            states[0].wf(),
            0 <= i < args.len(),
            states[0]@.contains_key(args[i]),
        ensures
            outs[i] == states[0]@[args[i]],
    {
        Self::lemma_run_prefix(states, args, outs, i);
        Self::lemma_run_invocations(states.take(i + 1), args.take(i), outs.take(i));
        assert(states[i].evaluates(args[i], outs[i], &states[i + 1]));
    }

    /// After any number of queries to a new evaluator, the computation has
    /// been invoked once for each distinct input queried, and not more: the
    /// number of invocations is the number of distinct inputs.
    pub proof fn lemma_invocation_count(states: Seq<Self>, args: Seq<u32>, outs: Seq<u32>)
        requires
            Self::runs(states, args, outs),
            states[0].wf(),
            states[0].invocations().len() == 0,
        ensures
            states.last().invocations().len() == args.to_set().len(),
            forall|x: u32|
                states.last().invocations().to_multiset().count(x) == if args.contains(x) {
                    1nat
                } else {
                    0nat
                },
    {
        Self::lemma_run_invocations(states, args, outs);
        let log = states.last().invocations();
        assert(states[0].invocations().to_set() =~= Set::<u32>::empty());
        assert(log.to_set() =~= args.to_set());
        log.unique_seq_to_set();
        log.to_multiset_ensures();
        log.lemma_multiset_has_no_duplicates();
        assert forall|x: u32|
            log.to_multiset().count(x) == if args.contains(x) {
                1nat
            } else {
                0nat
            } by {
            assert(log.contains(x) <==> log.to_set().contains(x));
            assert(args.contains(x) <==> args.to_set().contains(x));
        }
    }
}

/// What a day's exercise consists of.
#[derive(Clone, Copy, Debug, PartialEq, Eq)]
pub enum Workout {
    /// So many pushups.
    Pushups(u32),
    /// A day off.
    Break,
    /// A run of so many minutes.
    Run(u32),
}

impl Workout {
    /// The plan as a sentence.
    pub open spec fn text(self) -> Seq<char> {
        match self {
            Workout::Pushups(n) => "Today, do "@ + decimal_nat(n as nat) + " pushups"@,
            Workout::Break => "Take a break today"@,
            Workout::Run(n) => "Today, run for "@ + decimal_nat(n as nat) + " minutes"@,
        }
    }

    /// Puts the plan into a sentence.
    pub fn message(&self) -> (s: String)
        ensures
            s@ == self.text(),
    {
        match self {
            Workout::Pushups(n) => {
                let mut s = String::from_str("Today, do ");
                s.append(u64_to_string(*n as u64).as_str());
                s.append(" pushups");
                s
            },
            Workout::Break => String::from_str("Take a break today"),
            Workout::Run(n) => {
                let mut s = String::from_str("Today, run for ");
                s.append(u64_to_string(*n as u64).as_str());
                s.append(" minutes");
                s
            },
        }
    }
}

/// Plans a workout from an intensity and a number drawn by the caller.
///
/// A low intensity (below 25) means pushups, a high one a run, each as many
/// as `calculation` gives for the intensity; but a high intensity on a drawn 3
/// means a break, and then `calculation` is not consulted at all.
pub fn generate_workout<T: Fn(u32) -> u32>(calculation: T, intensity: u32, random_number: u32) -> (plan:
    Workout)
    requires
        intensity < 25 || random_number != 3 ==> call_requires(calculation, (intensity,)),
    ensures
        intensity < 25 ==> (plan matches Workout::Pushups(n) && call_ensures(
            calculation,
            (intensity,),
            n,
        )),
        intensity >= 25 && random_number == 3 ==> plan == Workout::Break,
        intensity >= 25 && random_number != 3 ==> (plan matches Workout::Run(n) && call_ensures(
            calculation,
            (intensity,),
            n,
        )),
{
    let mut expensive_closure = Cacher::new(calculation);
    if intensity < 25 {
        Workout::Pushups(expensive_closure.value(intensity))
    } else {
        if random_number == 3 {
            Workout::Break
        } else {
            Workout::Run(expensive_closure.value(intensity))
        }
    }
}

/// Adds a number to a variable that a closure captured from its surroundings.
pub fn capture_var() -> (y: i32)
    ensures
        y == 4,
{
    let x: i32 = 2;
    let equal_to_x = |a: i32| -> (sum: i32)
        requires
            a <= 1000,
        ensures
            sum == a + x,
        { a + x };
    equal_to_x(2)
}

} // verus!
