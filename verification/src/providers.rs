//! The provider export: how complete a provider's setup is.
use crate::calendar::Timestamp;
use crate::rows::{clone_opt_text, opt_text, texts};
use crate::streaming::text_eq;
use crate::text::{join, join_texts, push_char};
use vstd::prelude::*;
use vstd::string::*;

verus! {

/// A loaded row of the `providers` table (its `score` stays with the caller).
pub struct ProviderRow {
    pub id: i32,
    pub name: Option<String>,
    pub slug: Option<String>,
    pub uuid: Option<String>,
    pub created_at: Option<Timestamp>,
    pub certifications: Vec<String>,
    pub setup: Vec<String>,
    pub tier: Option<i32>,
    pub contact_emails: Option<Vec<String>>,
    pub sales_email: Option<String>,
    pub phone_number: Option<String>,
    pub ads_advertiser_id: Option<i32>,
    pub website: Option<String>,
    pub number_of_employees: Option<String>,
    pub type_of_company: Option<String>,
}

/// An exported provider (with the `score` of the row added by the caller).
pub struct ProviderRecord {
    pub id: i32,
    pub name: Option<String>,
    pub slug: Option<String>,
    pub uuid: Option<String>,
    pub created_at: Option<Timestamp>,
    pub certifications: String,
    pub percent_completeness: i32,
    pub tier: Option<i32>,
    pub contact_emails: String,
    pub sales_email: Option<String>,
    pub phone_number: Option<String>,
    pub ads_advertiser_id: Option<i32>,
    pub website: Option<String>,
    pub number_of_employees: Option<String>,
    pub type_of_company: Option<String>,
}

/// The providers that can be exported: those with a uuid and a list of
/// contact e-mail addresses, whose setup completeness fits in an `i32`.
pub open spec fn exportable_provider(p: ProviderRow) -> bool {
    &&& p.uuid is Some
    &&& p.contact_emails is Some
    &&& completeness(join(texts(p.setup@), ", "@)) <= i32::MAX
}

/// `rec` is the export of `p`.
pub open spec fn is_provider_record(rec: ProviderRecord, p: ProviderRow) -> bool {
    &&& rec.id == p.id
    &&& opt_text(rec.name) == opt_text(p.name)
    &&& opt_text(rec.slug) == opt_text(p.slug)
    &&& opt_text(rec.uuid) == opt_text(p.uuid)
    &&& rec.created_at == p.created_at
    &&& rec.certifications@ == join(texts(p.certifications@), ", "@)
    &&& rec.percent_completeness == completeness(join(texts(p.setup@), ", "@))
    &&& rec.tier == p.tier
    &&& rec.contact_emails@ == join(texts(p.contact_emails->0@), ", "@)
    &&& opt_text(rec.sales_email) == opt_text(p.sales_email)
    &&& opt_text(rec.phone_number) == opt_text(p.phone_number)
    &&& rec.ads_advertiser_id == p.ads_advertiser_id
    &&& opt_text(rec.website) == opt_text(p.website)
    &&& opt_text(rec.number_of_employees) == opt_text(p.number_of_employees)
    &&& opt_text(rec.type_of_company) == opt_text(p.type_of_company)
}

/// The characters with the Unicode `White_Space` property, which
/// `char::is_whitespace` and `str::trim_start` go by.
pub open spec fn is_white_space(c: char) -> bool {
    let u = c as u32;
    (0x09 <= u <= 0x0d) || u == 0x20 || u == 0x85 || u == 0xa0 || u == 0x1680 || (0x2000 <= u
        <= 0x200a) || u == 0x2028 || u == 0x2029 || u == 0x202f || u == 0x205f || u == 0x3000
}

/// The text without its leading white space (`str::trim_start`).
pub open spec fn trim_start(s: Seq<char>) -> Seq<char>
    decreases s.len(),
{
    if s.len() > 0 && is_white_space(s[0]) {
        trim_start(s.drop_first())
    } else {
        s
    }
}

/// The pieces of `s` between the occurrences of `c` (`str::split`): one more
/// piece than there are occurrences.
pub open spec fn split_pieces(s: Seq<char>, c: char) -> Seq<Seq<char>>
    decreases s.len(),
{
    if s.len() == 0 {
        seq![Seq::<char>::empty()]
    } else {
        let p = split_pieces(s.drop_last(), c);
        if s.last() == c {
            p.push(Seq::<char>::empty())
        } else {
            p.update(p.len() - 1, p.last().push(s.last()))
        }
    }
}

/// The setup steps that count, 20 percent each.
pub open spec fn step_rate(step: Seq<char>) -> int {
    if step == "Create Account"@ || step == "Update Company Profile"@ || step == "Add Addresses"@
        || step == "Add Certifications"@ || step == "Add Accounting Details"@ {
        20
    } else {
        0
    }
}

/// The sum of the rates of the pieces, each without leading white space.
pub open spec fn rate_sum(pieces: Seq<Seq<char>>) -> int
    decreases pieces.len(),
{
    if pieces.len() == 0 {
        0
    } else {
        rate_sum(pieces.drop_last()) + step_rate(trim_start(pieces.last()))
    }
}

/// The completeness of a provider's setup: the rates of the comma-separated
/// steps of its setup text.
pub open spec fn completeness(setup: Seq<char>) -> int {
    rate_sum(split_pieces(setup, ','))
}

/// Whether `c` is white space.
pub fn white_space(c: char) -> (r: bool)
    ensures
        r == is_white_space(c),
{
    let u = c as u32;
    (0x09 <= u && u <= 0x0d) || u == 0x20 || u == 0x85 || u == 0xa0 || u == 0x1680 || (0x2000 <= u
        && u <= 0x200a) || u == 0x2028 || u == 0x2029 || u == 0x202f || u == 0x205f || u == 0x3000
}

/// The text without its leading white space.
pub fn trim_start_text(s: &str) -> (r: &str)
    ensures
        r@ == trim_start(s@),
{
    let n = s.unicode_len();
    let mut i: usize = 0;
    assert(s@.skip(0) =~= s@);
    while i < n && white_space(s.get_char(i))
        invariant
            i <= n,
            n == s@.len(),
            trim_start(s@) == trim_start(s@.skip(i as int)),
        decreases n - i,
    {
        assert(s@.skip(i as int).drop_first() =~= s@.skip(i + 1));
        i += 1;
    }
    assert(i < n ==> !is_white_space(s@.skip(i as int)[0]));
    assert(s@.skip(i as int) =~= s@.subrange(i as int, n as int));
    s.substring_char(i, n)
}

/// The rate of one setup step.
pub fn rate_of(step: &str) -> (r: i32)
    ensures
        r == step_rate(step@),
{
    if text_eq(step, "Create Account") || text_eq(step, "Update Company Profile") || text_eq(
        step,
        "Add Addresses",
    ) || text_eq(step, "Add Certifications") || text_eq(step, "Add Accounting Details") {
        20
    } else {
        0
    }
}

proof fn lemma_pieces_count(s: Seq<char>, c: char)
    ensures
        1 <= split_pieces(s, c).len() <= s.len() + 1,
    decreases s.len(),
{
    if s.len() > 0 {
        lemma_pieces_count(s.drop_last(), c);
    }
}

/// The sum of the rates of the steps, each without leading white space.
pub open spec fn steps_rate(steps: Seq<Seq<char>>) -> int
    decreases steps.len(),
{
    if steps.len() == 0 {
        0
    } else {
        steps_rate(steps.drop_last()) + step_rate(trim_start(steps.last()))
    }
}

/// Text without `c` only extends the last piece.
proof fn lemma_pieces_extend(s: Seq<char>, t: Seq<char>, c: char)
    requires
        !t.contains(c),
    ensures
        split_pieces(s + t, c) == split_pieces(s, c).update(
            split_pieces(s, c).len() - 1,
            split_pieces(s, c).last() + t,
        ),
    decreases t.len(),
{
    let p = split_pieces(s, c);
    lemma_pieces_count(s, c);
    if t.len() == 0 {
        assert(s + t =~= s);
        assert(p.last() + t =~= p.last());
        assert(p.update(p.len() - 1, p.last() + t) =~= p);
    } else {
        let u = t.drop_last();
        assert(!u.contains(c)) by {
            if u.contains(c) {
                let k = choose|k: int| 0 <= k < u.len() && u[k] == c;
                assert(t[k] == c);
            }
        }
        lemma_pieces_extend(s, u, c);
        assert((s + t).drop_last() =~= s + u);
        assert((s + t).last() == t.last());
        assert(t.last() != c) by {
            assert(t[t.len() - 1] == t.last());
        }
        let q = split_pieces(s + u, c);
        assert((p.last() + u).push(t.last()) =~= p.last() + t);
        assert(q.update(q.len() - 1, q.last().push(t.last())) =~= p.update(p.len() - 1, p.last() + t));
    }
}

/// The steps that a provider's setup text can hold: none is named with a comma.
pub open spec fn comma_free(steps: Seq<Seq<char>>) -> bool {
    forall|i: int| 0 <= i < steps.len() ==> !(#[trigger] steps[i]).contains(',')
}

/// The pieces of steps joined by `", "`: the first step, then each other
/// step behind the space of the separator.
proof fn lemma_joined_pieces(steps: Seq<Seq<char>>)
    requires
        comma_free(steps),
        steps.len() > 0,
    ensures
        split_pieces(join(steps, ", "@), ',').len() == steps.len(),
        rate_sum(split_pieces(join(steps, ", "@), ',')) == steps_rate(steps),
    decreases steps.len(),
{
    reveal_strlit(", ");
    let sep = ", "@;
    if steps.len() == 1 {
        lemma_pieces_extend(Seq::<char>::empty(), steps[0], ',');
        assert(Seq::<char>::empty() + steps[0] =~= steps[0]);
        assert(seq![Seq::<char>::empty()].update(0, Seq::<char>::empty() + steps[0]) =~= seq![steps[0]]);
        assert(seq![steps[0]].drop_last() =~= Seq::<Seq<char>>::empty());
        assert(steps.drop_last() =~= Seq::<Seq<char>>::empty());
        assert(join(steps, sep) == steps[0]);
        assert(split_pieces(steps[0], ',') == seq![steps[0]]);
        assert(rate_sum(seq![steps[0]]) == rate_sum(Seq::<Seq<char>>::empty()) + step_rate(trim_start(steps[0])));
        assert(steps_rate(steps) == steps_rate(Seq::<Seq<char>>::empty()) + step_rate(trim_start(steps[0])));
    } else {
        let front = steps.drop_last();
        assert(comma_free(front)) by {
            assert forall|i: int| 0 <= i < front.len() implies !(#[trigger] front[i]).contains(',') by {
                assert(front[i] == steps[i]);
            }
        }
        lemma_joined_pieces(front);
        let s = join(front, sep);
        let last = steps.last();
        let t = seq![' '] + last;
        assert(!last.contains(',')) by {
            assert(last == steps[steps.len() - 1]);
        }
        assert(!t.contains(',')) by {
            if t.contains(',') {
                let k = choose|k: int| 0 <= k < t.len() && t[k] == ',';
                if k > 0 {
                    assert(last[k - 1] == ',');
                }
            }
        }
        assert(join(steps, sep) =~= s.push(',') + t);
        lemma_pieces_extend(s.push(','), t, ',');
        let p = split_pieces(s, ',');
        assert(s.push(',').drop_last() =~= s);
        let pc = split_pieces(s.push(','), ',');
        assert(pc == p.push(Seq::<char>::empty()));
        assert(Seq::<char>::empty() + t =~= t);
        let all = split_pieces(join(steps, sep), ',');
        assert(all =~= p.push(t));
        assert(all.drop_last() =~= p);
        assert(trim_start(t) == trim_start(last)) by {
            assert(t[0] == ' ');
            assert(t.drop_first() =~= last);
        }
    }
}

/// The completeness of a setup counts each of its steps once: for steps
/// whose names hold no comma, the completeness of the steps joined by `", "`
/// is the sum of the rates of the steps.
pub proof fn law_completeness_counts_each_step(steps: Seq<Seq<char>>)
    requires
        comma_free(steps),
    ensures
        completeness(join(steps, ", "@)) == steps_rate(steps),
{
    if steps.len() == 0 {
        reveal_strlit("Create Account");
        reveal_strlit("Update Company Profile");
        reveal_strlit("Add Addresses");
        reveal_strlit("Add Certifications");
        reveal_strlit("Add Accounting Details");
        let e = Seq::<char>::empty();
        assert(join(steps, ", "@) == e);
        assert(split_pieces(e, ',') == seq![e]);
        assert(seq![e].drop_last() =~= Seq::<Seq<char>>::empty());
        assert(trim_start(e) == e);
        assert(e.len() == 0);
        assert(step_rate(e) == 0);
        assert(rate_sum(seq![e]) == rate_sum(seq![e].drop_last()) + step_rate(trim_start(e)));
    } else {
        lemma_joined_pieces(steps);
    }
}

/// The rates of the pieces that the first `i` characters of `s` complete.
pub open spec fn done_rate(s: Seq<char>, i: int) -> int {
    rate_sum(split_pieces(s.take(i), ',').drop_last())
}

proof fn lemma_rate_step_bounds(step: Seq<char>)
    ensures
        0 <= step_rate(trim_start(step)) <= 20,
{
}

/// Reading one more character completes no piece or one more.
proof fn lemma_done_rate_step(s: Seq<char>, i: int)
    requires
        0 <= i < s.len(),
    ensures
        done_rate(s, i) <= done_rate(s, i + 1),
{
    let before = split_pieces(s.take(i), ',');
    let after = split_pieces(s.take(i + 1), ',');
    lemma_pieces_count(s.take(i), ',');
    assert(s.take(i + 1).drop_last() =~= s.take(i));
    assert(s.take(i + 1).last() == s[i]);
    if s[i] == ',' {
        assert(after == before.push(Seq::<char>::empty()));
        assert(after.drop_last() =~= before);
        assert(before =~= before.drop_last().push(before.last()));
        lemma_rate_step_bounds(before.last());
    } else {
        assert(after.drop_last() =~= before.drop_last());
    }
}

/// The completed pieces only grow as the text is read.
proof fn lemma_done_rate_bound(s: Seq<char>, i: int)
    requires
        0 <= i <= s.len(),
    ensures
        done_rate(s, i) <= done_rate(s, s.len() as int),
    decreases s.len() - i,
{
    if i < s.len() {
        lemma_done_rate_step(s, i);
        lemma_done_rate_bound(s, i + 1);
    }
}

/// The completeness counts the completed pieces and the last one.
proof fn lemma_completeness_covers_done(s: Seq<char>)
    ensures
        done_rate(s, s.len() as int) <= completeness(s),
{
    assert(s.take(s.len() as int) =~= s);
    let all = split_pieces(s, ',');
    lemma_pieces_count(s, ',');
    assert(all =~= all.drop_last().push(all.last()));
    lemma_rate_step_bounds(all.last());
}

/// The task that exports the providers.
pub struct ProviderTask {}

impl ProviderTask {
    /// The setup steps of a provider joined by `", "`.
    pub fn setup_text(setup: &Vec<String>) -> (r: String)
        ensures
            r@ == join(texts(setup@), ", "@),
    {
        join_texts(setup, ", ")
    }

    /// The export of one provider.
    pub fn record(p: &ProviderRow) -> (r: ProviderRecord)
        requires
            exportable_provider(*p),
        ensures
            is_provider_record(r, *p),
    {
        let setup = ProviderTask::setup_text(&p.setup);
        let percent_completeness = ProviderTask::percent_completeness(setup.as_str());
        ProviderRecord {
            id: p.id,
            name: clone_opt_text(&p.name),
            slug: clone_opt_text(&p.slug),
            uuid: clone_opt_text(&p.uuid),
            created_at: p.created_at,
            certifications: join_texts(&p.certifications, ", "),
            percent_completeness,
            tier: p.tier,
            contact_emails: join_texts(p.contact_emails.as_ref().unwrap(), ", "),
            sales_email: clone_opt_text(&p.sales_email),
            phone_number: clone_opt_text(&p.phone_number),
            ads_advertiser_id: p.ads_advertiser_id,
            website: clone_opt_text(&p.website),
            number_of_employees: clone_opt_text(&p.number_of_employees),
            type_of_company: clone_opt_text(&p.type_of_company),
        }
    }

    /// The exports of the providers, in their order.
    pub fn records(providers: &Vec<ProviderRow>) -> (r: Vec<ProviderRecord>)
        requires
            forall|i: int| 0 <= i < providers.len() ==> exportable_provider(#[trigger] providers@[i]),
        ensures
            r.len() == providers.len(),
            forall|i: int| 0 <= i < providers.len() ==> is_provider_record(#[trigger] r@[i], providers@[i]),
    {
        let mut r: Vec<ProviderRecord> = Vec::new();
        let mut i: usize = 0;
        while i < providers.len()
            invariant
                i <= providers.len(),
                r.len() == i,
                forall|j: int| 0 <= j < providers.len() ==> exportable_provider(#[trigger] providers@[j]),
                forall|j: int| 0 <= j < i ==> is_provider_record(#[trigger] r@[j], providers@[j]),
            decreases providers.len() - i,
        {
            r.push(ProviderTask::record(&providers[i]));
            i += 1;
        }
        r
    }

    /// The completeness of a provider's setup text, in percent; the sum must
    /// fit in an `i32`.
    pub fn percent_completeness(setup: &str) -> (r: i32)
        requires
            completeness(setup@) <= i32::MAX,
        ensures
            r == completeness(setup@),
    {
        ProviderTask::checked_percent_completeness(setup).unwrap()
    }

    /// The completeness of a provider's setup text, in percent, where the sum
    /// fits in an `i32`; `None` where adding up the rates overflows.
    pub fn checked_percent_completeness(setup: &str) -> (r: Option<i32>)
        ensures
            r is Some <==> completeness(setup@) <= i32::MAX,
            r matches Some(p) ==> p == completeness(setup@),
    {
        let n = setup.unicode_len();
        let mut percent_completeness: i32 = 0;
        let mut piece = String::new();
        let mut i: usize = 0;
        proof {
            assert(setup@.take(0) =~= Seq::<char>::empty());
        }
        while i < n
            invariant
                i <= n,
                n == setup@.len(),
                piece@ == split_pieces(setup@.take(i as int), ',').last(),
                percent_completeness == done_rate(setup@, i as int),
                percent_completeness >= 0,
            decreases n - i,
        {
            let ghost before = split_pieces(setup@.take(i as int), ',');
            proof {
                lemma_pieces_count(setup@.take(i as int), ',');
                lemma_rate_step_bounds(before.last());
            }
            let c = setup.get_char(i);
            assert(setup@.take(i + 1).drop_last() =~= setup@.take(i as int));
            assert(setup@.take(i + 1).last() == c);
            if c == ',' {
                let step = trim_start_text(piece.as_str());
                let after_rate = percent_completeness.checked_add(rate_of(step));
                proof {
                    let after = split_pieces(setup@.take(i + 1), ',');
                    assert(after == before.push(Seq::<char>::empty()));
                    assert(after.drop_last() =~= before);
                    assert(before =~= before.drop_last().push(before.last()));
                }
                match after_rate {
                    Some(p) => {
                        percent_completeness = p;
                    },
                    None => {
                        proof {
                            lemma_done_rate_bound(setup@, i + 1);
                            lemma_completeness_covers_done(setup@);
                        }
                        return None;
                    },
                }
                piece = String::new();
            } else {
                push_char(&mut piece, c);
                proof {
                    let after = split_pieces(setup@.take(i + 1), ',');
                    assert(after.drop_last() =~= before.drop_last());
                }
            }
            i += 1;
        }
        assert(setup@.take(n as int) =~= setup@);
        let ghost all = split_pieces(setup@, ',');
        proof {
            lemma_pieces_count(setup@, ',');
            lemma_rate_step_bounds(all.last());
            assert(all =~= all.drop_last().push(all.last()));
        }
        let step = trim_start_text(piece.as_str());
        percent_completeness.checked_add(rate_of(step))
    }
}

/// Each copied column of the export is the same-named column of its row.
pub proof fn law_provider_record_columns(rec: ProviderRecord, p: ProviderRow)
    requires
        is_provider_record(rec, p),
    ensures
        rec.id == p.id,
        opt_text(rec.name) == opt_text(p.name),
        opt_text(rec.slug) == opt_text(p.slug),
        opt_text(rec.uuid) == opt_text(p.uuid),
        rec.created_at == p.created_at,
        rec.tier == p.tier,
        opt_text(rec.sales_email) == opt_text(p.sales_email),
        opt_text(rec.phone_number) == opt_text(p.phone_number),
        rec.ads_advertiser_id == p.ads_advertiser_id,
        opt_text(rec.website) == opt_text(p.website),
        opt_text(rec.number_of_employees) == opt_text(p.number_of_employees),
        opt_text(rec.type_of_company) == opt_text(p.type_of_company),
{
}

} // verus!
