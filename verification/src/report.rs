use vstd::prelude::*;

use vstd::seq_lib::lemma_multiset_commutative;

verus! {

/// What a run of strategies hands the aggregator.
pub type Report = Vec<ReportEntry>;

/// One strategy's profit estimate for one producible good.
#[derive(Debug)]
pub struct ReportEntry {
    pub name: String,
    pub gross: u64,
    pub cost: u64,
    pub limit: u64,
    pub profit: i64,
    pub volume: u64,
}

/// The mathematical shadow of a report entry.
pub ghost struct EntrySpec {
    pub name: Seq<char>,
    pub gross: int,
    pub cost: int,
    pub limit: int,
    pub profit: int,
    pub volume: int,
}

impl View for ReportEntry {
    type V = EntrySpec;

    open spec fn view(&self) -> EntrySpec {
        EntrySpec {
            name: self.name@,
            gross: self.gross as int,
            cost: self.cost as int,
            limit: self.limit as int,
            profit: self.profit as int,
            volume: self.volume as int,
        }
    }
}

/// The entry a strategy owes for given takings: profit is never set
/// independently of gross and cost, so the two can never drift apart.
pub open spec fn entry_of(name: Seq<char>, gross: int, cost: int, limit: int, volume: int)
    -> EntrySpec {
    EntrySpec { name, gross, cost, limit, profit: gross - cost, volume }
}

impl ReportEntry {
    /// Builds an entry; the profit is computed, signed, and may be
    /// negative when production loses money.
    pub fn new(name: &str, gross: u64, cost: u64, limit: u64, volume: u64) -> (r: Self)
        requires
            gross <= i64::MAX as u64,
            cost <= i64::MAX as u64,
        ensures
            r@ == entry_of(name@, gross as int, cost as int, limit as int, volume as int),
    {
        let profit: i64 = gross as i64 - cost as i64;
        ReportEntry { name: name.to_owned(), gross, cost, limit, profit, volume }
    }
}

impl PartialEq for ReportEntry {
    /// Entries compare by profit alone, the report's one ranking key.
    fn eq(&self, other: &Self) -> (r: bool) {
        self.profit == other.profit
    }
}

impl vstd::std_specs::cmp::PartialEqSpecImpl for ReportEntry {
    open spec fn obeys_eq_spec() -> bool {
        true
    }

    open spec fn eq_spec(&self, other: &Self) -> bool {
        self.profit == other.profit
    }
}

impl PartialOrd for ReportEntry {
    fn partial_cmp(&self, other: &Self) -> (r: Option<core::cmp::Ordering>) {
        if self.profit < other.profit {
            Some(core::cmp::Ordering::Less)
        } else if self.profit == other.profit {
            Some(core::cmp::Ordering::Equal)
        } else {
            Some(core::cmp::Ordering::Greater)
        }
    }
}

impl vstd::std_specs::cmp::PartialOrdSpecImpl for ReportEntry {
    open spec fn obeys_partial_cmp_spec() -> bool {
        true
    }

    open spec fn partial_cmp_spec(&self, other: &Self) -> Option<core::cmp::Ordering> {
        if self.profit < other.profit {
            Some(core::cmp::Ordering::Less)
        } else if self.profit == other.profit {
            Some(core::cmp::Ordering::Equal)
        } else {
            Some(core::cmp::Ordering::Greater)
        }
    }
}

/// The mathematical shadow of a whole report.
pub open spec fn entries_view(s: Seq<ReportEntry>) -> Seq<EntrySpec> {
    s.map_values(|e: ReportEntry| e@)
}

/// Ranked best first; ties may sit next to each other in any order the
/// sort put them, which for `sort_desc` is emission order.
pub open spec fn sorted_desc(s: Seq<ReportEntry>) -> bool {
    forall|i: int, j: int| 0 <= i <= j < s.len() ==> s[i].profit >= s[j].profit
}

/// Insertion before the first entry not beating `e`: an incoming entry
/// lands behind nothing it ties with that came earlier.
pub open spec fn insert_desc(e: ReportEntry, s: Seq<ReportEntry>) -> Seq<ReportEntry>
    decreases s.len(),
{
    if s.len() == 0 {
        seq![e]
    } else if e.profit >= s[0].profit {
        seq![e] + s
    } else {
        seq![s[0]] + insert_desc(e, s.drop_first())
    }
}

/// The descending stable sort of a report: each entry, taken in
/// emission order, inserted ahead of later entries it ties with.
pub open spec fn sort_desc(s: Seq<ReportEntry>) -> Seq<ReportEntry>
    decreases s.len(),
{
    if s.len() == 0 {
        s
    } else {
        insert_desc(s[0], sort_desc(s.drop_first()))
    }
}

/// The entries carrying one given profit, used to state stability.
pub open spec fn profit_is(v: int) -> spec_fn(ReportEntry) -> bool {
    |e: ReportEntry| e.profit == v
}

proof fn lemma_filter_singleton(x: ReportEntry, p: spec_fn(ReportEntry) -> bool)
    ensures
        seq![x].filter(p) == if p(x) {
            seq![x]
        } else {
            Seq::<ReportEntry>::empty()
        },
{
    reveal(Seq::filter);
    let s = seq![x];
    assert(s.drop_last() =~= Seq::<ReportEntry>::empty());
    assert(s.drop_last().filter(p) =~= Seq::<ReportEntry>::empty());
    assert(s.last() == x);
    if p(x) {
        assert(s.filter(p) == s.drop_last().filter(p).push(x));
        assert(s.drop_last().filter(p).push(x) =~= seq![x]);
    } else {
        assert(s.filter(p) == s.drop_last().filter(p));
    }
}

proof fn lemma_insert_desc_len(e: ReportEntry, s: Seq<ReportEntry>)
    ensures
        insert_desc(e, s).len() == s.len() + 1,
    decreases s.len(),
{
    if s.len() == 0 {
    } else if e.profit >= s[0].profit {
    } else {
        lemma_insert_desc_len(e, s.drop_first());
    }
}

/// Structural form of `insert_desc`: the entry lands at the first index
/// whose element it is not beaten by.
proof fn lemma_insert_desc_split(e: ReportEntry, s: Seq<ReportEntry>, j: int)
    requires
        0 <= j <= s.len(),
        forall|k: int| 0 <= k < j ==> s[k].profit > e.profit,
        j < s.len() ==> e.profit >= s[j].profit,
    ensures
        insert_desc(e, s) == s.take(j) + seq![e] + s.skip(j),
    decreases s.len(),
{
    if j == 0 {
        if s.len() == 0 {
            assert(insert_desc(e, s) =~= s.take(0) + seq![e] + s.skip(0));
        } else {
            assert(seq![e] + s =~= s.take(0) + seq![e] + s.skip(0));
        }
    } else {
        assert(s[0].profit > e.profit);
        assert forall|k: int| 0 <= k < j - 1 implies #[trigger] s.drop_first()[k].profit
            > e.profit by {
            assert(s.drop_first()[k] == s[k + 1]);
        }
        lemma_insert_desc_split(e, s.drop_first(), j - 1);
        assert(seq![s[0]] + (s.drop_first().take(j - 1) + seq![e] + s.drop_first().skip(j - 1))
            =~= s.take(j) + seq![e] + s.skip(j));
    }
}

/// Insertion only rearranges: the bag of entries is unchanged.
proof fn lemma_insert_desc_multiset(e: ReportEntry, s: Seq<ReportEntry>)
    ensures
        insert_desc(e, s).to_multiset() == s.to_multiset().insert(e),
    decreases s.len(),
{
    broadcast use vstd::seq_lib::group_to_multiset_ensures;
    broadcast use vstd::multiset::group_multiset_axioms;

    if s.len() == 0 {
        assert(seq![e] =~= Seq::<ReportEntry>::empty().push(e));
        assert(insert_desc(e, s).to_multiset() =~= s.to_multiset().insert(e));
    } else if e.profit >= s[0].profit {
        lemma_multiset_commutative(seq![e], s);
        assert(seq![e] =~= Seq::<ReportEntry>::empty().push(e));
        assert((seq![e] + s).to_multiset() =~= s.to_multiset().insert(e));
    } else {
        lemma_insert_desc_multiset(e, s.drop_first());
        lemma_multiset_commutative(seq![s[0]], insert_desc(e, s.drop_first()));
        lemma_multiset_commutative(seq![s[0]], s.drop_first());
        assert(s =~= seq![s[0]] + s.drop_first());
        assert(insert_desc(e, s).to_multiset() =~= s.to_multiset().insert(e));
    }
}

/// Insertion into a ranked report keeps it ranked.
proof fn lemma_insert_desc_sorted(e: ReportEntry, s: Seq<ReportEntry>)
    requires
        sorted_desc(s),
    ensures
        sorted_desc(insert_desc(e, s)),
    decreases s.len(),
{
    broadcast use vstd::seq_lib::group_to_multiset_ensures;
    broadcast use vstd::multiset::group_multiset_axioms;

    if s.len() == 0 {
    } else if e.profit >= s[0].profit {
        let t = seq![e] + s;
        assert forall|i: int, j: int| 0 <= i <= j < t.len() implies t[i].profit >= t[j].profit by {
            if i == 0 && j > 0 {
                assert(t[j] == s[j - 1]);
                assert(s[0].profit >= s[j - 1].profit);
            } else if i > 0 {
                assert(t[i] == s[i - 1] && t[j] == s[j - 1]);
            }
        }
    } else {
        assert(sorted_desc(s.drop_first())) by {
            assert forall|i: int, j: int|
                0 <= i <= j < s.drop_first().len() implies #[trigger] s.drop_first()[i].profit
                >= #[trigger] s.drop_first()[j].profit by {
                assert(s.drop_first()[i] == s[i + 1] && s.drop_first()[j] == s[j + 1]);
            }
        }
        lemma_insert_desc_sorted(e, s.drop_first());
        lemma_insert_desc_multiset(e, s.drop_first());
        let t = insert_desc(e, s.drop_first());
        assert forall|k: int| 0 <= k < t.len() implies s[0].profit >= t[k].profit by {
            assert(t.contains(t[k]));
            assert(t.to_multiset().count(t[k]) > 0);
            if t[k] != e {
                assert(s.drop_first().to_multiset().count(t[k]) > 0);
                assert(s.drop_first().contains(t[k]));
                let idx = choose|idx: int|
                    0 <= idx < s.drop_first().len() && s.drop_first()[idx] == t[k];
                assert(s[idx + 1] == t[k]);
                assert(s[0].profit >= s[idx + 1].profit);
            }
        }
        let u = seq![s[0]] + t;
        assert forall|i: int, j: int| 0 <= i <= j < u.len() implies u[i].profit >= u[j].profit by {
            if i == 0 && j > 0 {
                assert(u[j] == t[j - 1]);
            } else if i > 0 {
                assert(u[i] == t[i - 1] && u[j] == t[j - 1]);
            }
        }
        assert(insert_desc(e, s) == u);
    }
}

/// Insertion puts an entry after every equal-profit entry already
/// placed, and changes no other profit class.
proof fn lemma_insert_desc_filter(e: ReportEntry, s: Seq<ReportEntry>, v: int)
    ensures
        insert_desc(e, s).filter(profit_is(v)) == if e.profit == v {
            seq![e] + s.filter(profit_is(v))
        } else {
            s.filter(profit_is(v))
        },
    decreases s.len(),
{
    let p = profit_is(v);
    if s.len() == 0 {
        lemma_filter_singleton(e, p);
        reveal(Seq::filter);
        if e.profit == v {
            assert(seq![e] =~= seq![e] + Seq::<ReportEntry>::empty());
        }
    } else if e.profit >= s[0].profit {
        Seq::filter_distributes_over_add(seq![e], s, p);
        lemma_filter_singleton(e, p);
        if e.profit == v {
        } else {
            assert(Seq::<ReportEntry>::empty() + s.filter(p) =~= s.filter(p));
        }
    } else {
        lemma_insert_desc_filter(e, s.drop_first(), v);
        Seq::filter_distributes_over_add(seq![s[0]], insert_desc(e, s.drop_first()), p);
        Seq::filter_distributes_over_add(seq![s[0]], s.drop_first(), p);
        lemma_filter_singleton(s[0], p);
        assert(s =~= seq![s[0]] + s.drop_first());
        if e.profit == v {
            // s[0] beats e strictly, so it is not in this profit class.
            assert(!p(s[0]));
            assert(seq![s[0]].filter(p) =~= Seq::<ReportEntry>::empty());
            assert(Seq::<ReportEntry>::empty() + (seq![e] + s.drop_first().filter(p)) =~= seq![e]
                + (Seq::<ReportEntry>::empty() + s.drop_first().filter(p)));
        }
    }
}

proof fn lemma_sort_desc_filter(s: Seq<ReportEntry>, v: int)
    ensures
        sort_desc(s).filter(profit_is(v)) == s.filter(profit_is(v)),
    decreases s.len(),
{
    let p = profit_is(v);
    if s.len() > 0 {
        lemma_sort_desc_filter(s.drop_first(), v);
        lemma_insert_desc_filter(s[0], sort_desc(s.drop_first()), v);
        Seq::filter_distributes_over_add(seq![s[0]], s.drop_first(), p);
        lemma_filter_singleton(s[0], p);
        assert(s =~= seq![s[0]] + s.drop_first());
        if s[0].profit == v {
            assert(seq![s[0]] + s.drop_first().filter(p) =~= seq![s[0]].filter(p)
                + s.drop_first().filter(p));
        } else {
            assert(Seq::<ReportEntry>::empty() + s.drop_first().filter(p) =~= s.drop_first().filter(
                p,
            ));
        }
    }
}

/// Aggregation is a descending, stable sort by profit: the result is
/// ranked best first, holds exactly the entries that came in, and
/// within one profit class keeps the emission order, stated here as
/// the class's subsequence surviving the sort unchanged.
pub proof fn lemma_sort_desc_sorted_stable(s: Seq<ReportEntry>)
    ensures
        sorted_desc(sort_desc(s)),
        sort_desc(s).to_multiset() == s.to_multiset(),
        sort_desc(s).len() == s.len(),
        forall|v: int| #[trigger] sort_desc(s).filter(profit_is(v)) == s.filter(profit_is(v)),
    decreases s.len(),
{
    broadcast use vstd::seq_lib::group_to_multiset_ensures;
    broadcast use vstd::multiset::group_multiset_axioms;

    if s.len() > 0 {
        lemma_sort_desc_sorted_stable(s.drop_first());
        lemma_insert_desc_sorted(s[0], sort_desc(s.drop_first()));
        lemma_insert_desc_multiset(s[0], sort_desc(s.drop_first()));
        lemma_insert_desc_len(s[0], sort_desc(s.drop_first()));
        lemma_multiset_commutative(seq![s[0]], s.drop_first());
        assert(s =~= seq![s[0]] + s.drop_first());
        assert(seq![s[0]] =~= Seq::<ReportEntry>::empty().push(s[0]));
        assert(sort_desc(s).to_multiset() =~= s.to_multiset());
    }
    assert forall|v: int| #[trigger] sort_desc(s).filter(profit_is(v)) == s.filter(profit_is(v)) by {
        lemma_sort_desc_filter(s, v);
    }
}

fn insertion_point(e: &ReportEntry, acc: &Vec<ReportEntry>) -> (j: usize)
    ensures
        j <= acc@.len(),
        forall|k: int| 0 <= k < j ==> acc@[k].profit > e.profit,
        j < acc@.len() ==> e.profit >= acc@[j as int].profit,
{
    let mut j: usize = 0;
    while j < acc.len()
        invariant
            j <= acc@.len(),
            forall|k: int| 0 <= k < j ==> acc@[k].profit > e.profit,
        decreases acc@.len() - j,
    {
        if e.profit >= acc[j].profit {
            return j;
        }
        j += 1;
    }
    j
}

fn insert_entry(acc: &mut Vec<ReportEntry>, e: ReportEntry)
    ensures
        final(acc)@ == insert_desc(e, old(acc)@),
{
    let j = insertion_point(&e, acc);
    proof {
        lemma_insert_desc_split(e, acc@, j as int);
    }
    acc.insert(j, e);
    proof {
        assert(old(acc)@.insert(j as int, e) =~= old(acc)@.take(j as int) + seq![e] + old(
            acc,
        )@.skip(j as int));
    }
}

/// Merges strategy outputs into one report ranked by profit, best
/// first, stable across ties.
pub fn aggregate(entries: Vec<ReportEntry>) -> (r: Vec<ReportEntry>)
    ensures
        r@ == sort_desc(entries@),
{
    let ghost all = entries@;
    let mut rest = entries;
    let mut acc: Vec<ReportEntry> = Vec::new();
    proof {
        assert(all.take(all.len() as int) =~= all);
        assert(all.skip(all.len() as int) =~= Seq::<ReportEntry>::empty());
    }
    while rest.len() > 0
        invariant
            rest@.len() <= all.len(),
            rest@ == all.take(rest@.len() as int),
            acc@ == sort_desc(all.skip(rest@.len() as int)),
        decreases rest@.len(),
    {
        let ghost n = rest@.len() as int;
        let e = rest.pop().unwrap();
        proof {
            assert(e == all[n - 1]);
            assert(rest@ =~= all.take(n - 1));
            assert(all.skip(n - 1).drop_first() =~= all.skip(n));
            assert(all.skip(n - 1)[0] == e);
        }
        insert_entry(&mut acc, e);
        proof {
            assert(acc@ == insert_desc(e, sort_desc(all.skip(n))));
            assert(sort_desc(all.skip(n - 1)) == insert_desc(
                all.skip(n - 1)[0],
                sort_desc(all.skip(n - 1).drop_first()),
            ));
        }
    }
    proof {
        assert(all.skip(0) =~= all);
    }
    acc
}

/// The entries worth presenting: profit at or above the threshold and
/// never negative.
pub open spec fn material(threshold: i64) -> spec_fn(ReportEntry) -> bool {
    |e: ReportEntry| e.profit >= threshold && e.profit >= 0
}

/// The materiality policy layered over the sorted report: discards
/// entries below the threshold or in the red, keeps the rest in order.
pub fn filter_material(entries: Vec<ReportEntry>, threshold: i64) -> (r: Vec<ReportEntry>)
    ensures
        r@ == entries@.filter(material(threshold)),
{
    let ghost all = entries@;
    let mut rest = entries;
    let mut out: Vec<ReportEntry> = Vec::new();
    proof {
        assert(all.skip(0) =~= all);
        assert(all.take(0) =~= Seq::<ReportEntry>::empty());
        reveal(Seq::filter);
    }
    while rest.len() > 0
        invariant
            rest@.len() <= all.len(),
            rest@ == all.skip(all.len() - rest@.len()),
            out@ == all.take(all.len() - rest@.len()).filter(material(threshold)),
        decreases rest@.len(),
    {
        let ghost i = all.len() - rest@.len();
        let x = rest.remove(0);
        proof {
            assert(x == all[i]);
            assert(rest@ =~= all.skip(i + 1));
            assert(all.take(i + 1) =~= all.take(i).push(all[i]));
            all.take(i).lemma_filter_push(x, material(threshold));
        }
        if x.profit >= threshold && x.profit >= 0 {
            out.push(x);
        } else {
            proof {
                assert(!(material(threshold)(x)));
            }
        }
    }
    proof {
        assert(all.take(all.len() as int) =~= all);
    }
    out
}

} // verus!
