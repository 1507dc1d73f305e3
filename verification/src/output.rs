//! The output-selection policy. From the decoded records, in traversal
//! order: keep the Wi-Fi adapters only, render each one's description and
//! formatted hardware address with its classification, and pick the address
//! of the first physical (non-virtual) Wi-Fi adapter — the one value that
//! goes to the clipboard, at most once per run.

use vstd::prelude::*;
use crate::adapter::{AdapterInfo, AdapterInfoV, IF_TYPE_IEEE80211, views_of};
use crate::classify::{classify, is_virtual_desc};
use crate::mac::{format_mac, mac_text};
use crate::parse::{parse_adapters, parse_spec, RawAdapterBuffer};

verus! {

/// One rendered output entry: a Wi-Fi adapter's name, its formatted
/// hardware address, and whether the heuristic calls it virtual (shown
/// de-emphasized, never copied).
pub struct AdapterReport {
    pub description: String,
    pub mac_text: String,
    pub is_virtual: bool,
}

/// The mathematical value of one rendered entry.
pub ghost struct ReportV {
    pub description: Seq<char>,
    pub mac_text: Seq<char>,
    pub is_virtual: bool,
}

impl View for AdapterReport {
    type V = ReportV;

    open spec fn view(&self) -> ReportV {
        ReportV {
            description: self.description@,
            mac_text: self.mac_text@,
            is_virtual: self.is_virtual,
        }
    }
}

/// The values of a whole report sequence.
pub open spec fn report_views(reports: Seq<AdapterReport>) -> Seq<ReportV> {
    reports.map_values(|r: AdapterReport| r@)
}

/// What one record renders to.
pub open spec fn report_of(a: AdapterInfoV) -> ReportV {
    ReportV {
        description: a.description,
        mac_text: mac_text(a.physical_address),
        is_virtual: is_virtual_desc(a.description),
    }
}

/// The subsequence of Wi-Fi records, in order.
pub open spec fn wifi_only(s: Seq<AdapterInfoV>) -> Seq<AdapterInfoV>
    decreases s.len(),
{
    if s.len() == 0 {
        Seq::empty()
    } else {
        wifi_only(s.drop_last()) + (if s.last().interface_type == IF_TYPE_IEEE80211 {
            seq![s.last()]
        } else {
            Seq::empty()
        })
    }
}

/// Everything the run shows: one rendered entry per Wi-Fi record, in order.
pub open spec fn report_seq(s: Seq<AdapterInfoV>) -> Seq<ReportV> {
    wifi_only(s).map_values(|a: AdapterInfoV| report_of(a))
}

/// The address that goes to the clipboard: the formatted address of the
/// first non-virtual entry, or nothing where every entry is virtual.
pub open spec fn copy_choice(reports: Seq<ReportV>) -> Option<Seq<char>>
    decreases reports.len(),
{
    if reports.len() == 0 {
        Option::None
    } else if !reports[0].is_virtual {
        Option::Some(reports[0].mac_text)
    } else {
        copy_choice(reports.drop_first())
    }
}

/// How the copy choice grows with the report sequence: a choice already
/// made stands; an open choice falls on a new physical entry.
proof fn lemma_copy_choice_push(s: Seq<ReportV>, x: ReportV)
    ensures
        copy_choice(s.push(x)) == (if copy_choice(s) is Some {
            copy_choice(s)
        } else if !x.is_virtual {
            Option::Some(x.mac_text)
        } else {
            Option::<Seq<char>>::None
        }),
    decreases s.len(),
{
    if s.len() == 0 {
        assert(copy_choice(s) is None);
        assert(s.push(x)[0] == x);
        if x.is_virtual {
            assert(s.push(x).drop_first() =~= Seq::<ReportV>::empty());
            assert(copy_choice(s.push(x)) == copy_choice(Seq::<ReportV>::empty()));
        }
    } else {
        assert(s.push(x)[0] == s[0]);
        assert(s.push(x).drop_first() =~= s.drop_first().push(x));
        lemma_copy_choice_push(s.drop_first(), x);
        if !s[0].is_virtual {
            assert(copy_choice(s) == Option::Some(s[0].mac_text));
            assert(copy_choice(s.push(x)) == Option::Some(s[0].mac_text));
        } else {
            assert(copy_choice(s) == copy_choice(s.drop_first()));
            assert(copy_choice(s.push(x)) == copy_choice(s.drop_first().push(x)));
        }
    }
}

/// The whole plan of one run's adapter section.
pub struct OutputPlan {
    /// The entries to show, in traversal order.
    pub reports: Vec<AdapterReport>,
    /// The address to copy, where a physical Wi-Fi adapter exists.
    pub copy_text: Option<String>,
}

/// Builds the run's output plan from the decoded records: exactly the
/// Wi-Fi records, in order, each rendered with its classification; the
/// copy text is the formatted address of the first physical one, and
/// absent exactly where there is none.
pub fn plan_output(adapters: &Vec<AdapterInfo>) -> (plan: OutputPlan)
    ensures
        report_views(plan.reports@) == report_seq(views_of(adapters@)),
        plan.copy_text matches Option::Some(t) ==> copy_choice(report_seq(views_of(adapters@)))
            == Option::Some(t@),
        plan.copy_text is None ==> copy_choice(report_seq(views_of(adapters@))) is None,
{
    let mut reports: Vec<AdapterReport> = Vec::new();
    let mut copy_text: Option<String> = Option::None;
    let mut i: usize = 0;
    while i < adapters.len()
        invariant
            i <= adapters@.len(),
            report_views(reports@) == report_seq(views_of(adapters@).take(i as int)),
            copy_text matches Option::Some(t) ==> copy_choice(report_views(reports@))
                == Option::Some(t@),
            copy_text is None ==> copy_choice(report_views(reports@)) is None,
        decreases adapters@.len() - i,
    {
        let ghost av = views_of(adapters@);
        let ghost rv_old = report_views(reports@);
        let a = &adapters[i];
        proof {
            assert(av[i as int] == a@);
            assert(av.take(i + 1).drop_last() =~= av.take(i as int));
            assert(av.take(i + 1).last() == av[i as int]);
        }
        if a.interface_type == IF_TYPE_IEEE80211 {
            let description = a.description.clone();
            let is_virtual = classify(a.description.as_str());
            let mac = format_mac(&a.physical_address);
            proof {
                lemma_copy_choice_push(rv_old, report_of(av[i as int]));
            }
            if !is_virtual && copy_text.is_none() {
                copy_text = Option::Some(mac.clone());
            }
            let report = AdapterReport { description, mac_text: mac, is_virtual };
            assert(report@ == report_of(av[i as int]));
            reports.push(report);
            proof {
                assert(report_views(reports@) =~= rv_old.push(report_of(av[i as int])));
                assert(wifi_only(av.take(i + 1)) =~= wifi_only(av.take(i as int)).push(
                    av[i as int],
                ));
                assert(report_views(reports@) =~= report_seq(av.take(i + 1)));
            }
        } else {
            proof {
                assert(wifi_only(av.take(i + 1)) =~= wifi_only(av.take(i as int)));
                assert(report_views(reports@) =~= report_seq(av.take(i + 1)));
            }
        }
        i = i + 1;
    }
    proof {
        assert(views_of(adapters@).take(adapters@.len() as int) =~= views_of(adapters@));
    }
    OutputPlan { reports, copy_text }
}

/// The whole adapter section of one run, straight from a raw snapshot:
/// decode every record, keep the Wi-Fi ones, classify and render each, and
/// choose the first physical address for the clipboard.
pub fn plan_for_snapshot(buffer: &RawAdapterBuffer) -> (plan: OutputPlan)
    ensures
        report_views(plan.reports@) == report_seq(parse_spec(buffer@)),
        plan.copy_text matches Option::Some(t) ==> copy_choice(report_seq(parse_spec(buffer@)))
            == Option::Some(t@),
        plan.copy_text is None ==> copy_choice(report_seq(parse_spec(buffer@))) is None,
{
    let records = parse_adapters(buffer);
    plan_output(&records)
}

/// The notice shown when no physical Wi-Fi adapter was found, and nothing
/// was copied.
pub fn none_found_notice() -> (r: String)
    ensures
        r@ == "No physical Wi-Fi adapter found to copy."@,
{
    "No physical Wi-Fi adapter found to copy.".to_owned()
}

/// Law: the output holds Wi-Fi adapters only — every entry of the kept
/// subsequence carries the IEEE 802.11 type code.
pub proof fn lemma_output_only_wifi(s: Seq<AdapterInfoV>)
    ensures
        forall|j: int|
            0 <= j < wifi_only(s).len() ==> wifi_only(s)[j].interface_type == IF_TYPE_IEEE80211,
    decreases s.len(),
{
    if s.len() > 0 {
        let t = s.drop_last();
        lemma_output_only_wifi(t);
        let w = wifi_only(s);
        let wt = wifi_only(t);
        assert forall|j: int| 0 <= j < w.len() implies w[j].interface_type
            == IF_TYPE_IEEE80211 by {
            if j < wt.len() {
                assert(w[j] == wt[j]);
            } else {
                assert(w[j] == s.last());
            }
        }
    }
}

/// Law: an adapter of any other interface type is excluded from the output,
/// whatever its description: dropping it changes neither the shown entries
/// nor the copy choice.
pub proof fn lemma_non_wifi_excluded(s: Seq<AdapterInfoV>, i: int)
    requires
        0 <= i < s.len(),
        s[i].interface_type != IF_TYPE_IEEE80211,
    ensures
        report_seq(s.remove(i)) == report_seq(s),
        copy_choice(report_seq(s.remove(i))) == copy_choice(report_seq(s)),
{
    lemma_non_wifi_removed(s, i);
}

/// The kept subsequence is unchanged by removing a non-Wi-Fi record.
proof fn lemma_non_wifi_removed(s: Seq<AdapterInfoV>, i: int)
    requires
        0 <= i < s.len(),
        s[i].interface_type != IF_TYPE_IEEE80211,
    ensures
        wifi_only(s.remove(i)) == wifi_only(s),
    decreases s.len(),
{
    if i == s.len() - 1 {
        assert(s.remove(i) =~= s.drop_last());
    } else {
        let t = s.drop_last();
        assert(s.remove(i).drop_last() =~= t.remove(i));
        assert(s.remove(i).last() == s.last());
        lemma_non_wifi_removed(t, i);
    }
}

} // verus!
