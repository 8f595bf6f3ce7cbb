//! Properties that hold across the request builders: every parameter name
//! of a request occurs once, also in the full query with the global
//! parameters in front.
use vstd::prelude::*;

use crate::client::{global_params, ClientConfig};
use crate::domains::{
    check_params_spec, contact_params, create_params, effective_mx_pref, record_params, records_params,
    set_hosts_params, yes_no_text, Contact, DomainCreateRequest, HostRecord, SetHostsRequest,
};
use crate::users::{pricing_params, PricingRequest};
use crate::text::{
    decimal, is_digit, lemma_decimal_digits, lemma_decimal_injective,
    lemma_split_word_digits, no_digits,
};

verus! {

/// No two parameters share a name.
pub open spec fn keys_distinct(params: Seq<(Seq<char>, Seq<char>)>) -> bool {
    forall|i: int, j: int| 0 <= i < j < params.len() ==> params[i].0 != params[j].0
}

/// The first three characters of a parameter name, which tell apart most
/// groups of parameters.
pub open spec fn tag(key: Seq<char>) -> Seq<char> {
    key.subrange(0, 3)
}

/// Every name in `params` has at least three characters and a tag in `tags`.
pub open spec fn tagged(params: Seq<(Seq<char>, Seq<char>)>, tags: Set<Seq<char>>) -> bool {
    forall|i: int|
        #![trigger params[i]]
        0 <= i < params.len() ==> params[i].0.len() >= 3 && tags.contains(tag(params[i].0))
}

proof fn lemma_concat_distinct(
    a: Seq<(Seq<char>, Seq<char>)>,
    b: Seq<(Seq<char>, Seq<char>)>,
    ta: Set<Seq<char>>,
    tb: Set<Seq<char>>,
)
    requires
        keys_distinct(a),
        keys_distinct(b),
        tagged(a, ta),
        tagged(b, tb),
        ta.disjoint(tb),
    ensures
        keys_distinct(a + b),
        tagged(a + b, ta.union(tb)),
{
    let all = a + b;
    assert forall|i: int, j: int| 0 <= i < j < all.len() implies all[i].0 != all[j].0 by {
        if j < a.len() {
            assert(all[i] == a[i] && all[j] == a[j]);
        } else if i >= a.len() {
            assert(all[i] == b[i - a.len()] && all[j] == b[j - a.len()]);
        } else {
            assert(all[i] == a[i] && all[j] == b[j - a.len()]);
            assert(ta.contains(tag(a[i].0)));
            assert(tb.contains(tag(b[j - a.len()].0)));
        }
    }
    assert forall|i: int| #![trigger all[i]] 0 <= i < all.len() implies all[i].0.len() >= 3
        && ta.union(tb).contains(tag(all[i].0)) by {
        if i < a.len() {
            assert(all[i] == a[i]);
        } else {
            assert(all[i] == b[i - a.len()]);
        }
    }
}

proof fn lemma_tagged_concat(
    a: Seq<(Seq<char>, Seq<char>)>,
    b: Seq<(Seq<char>, Seq<char>)>,
    tags: Set<Seq<char>>,
)
    requires
        tagged(a, tags),
        tagged(b, tags),
    ensures
        tagged(a + b, tags),
{
    let all = a + b;
    assert forall|i: int| #![trigger all[i]] 0 <= i < all.len() implies all[i].0.len() >= 3
        && tags.contains(tag(all[i].0)) by {
        if i < a.len() {
            assert(all[i] == a[i]);
        } else {
            assert(all[i] == b[i - a.len()]);
        }
    }
}

/// The tags of the names of record fields.
pub open spec fn record_tags() -> Set<Seq<char>> {
    set![tag("HostName"@), tag("RecordType"@), tag("Address"@), tag("MXPref"@), tag("TTL"@)]
}

/// The names of a record's parameters, before its number is appended.
pub open spec fn record_key_names(r: HostRecord) -> Seq<Seq<char>> {
    seq!["HostName"@, "RecordType"@, "Address"@] + (if effective_mx_pref(r) is Some {
        seq!["MXPref"@]
    } else {
        Seq::empty()
    }) + (if r.ttl is Some {
        seq!["TTL"@]
    } else {
        Seq::empty()
    })
}

/// `key` is `name` followed by the decimal rendering of `k`.
pub open spec fn numbered(key: Seq<char>, name: Seq<char>, k: nat) -> bool {
    key == name + decimal(k)
}

/// `key` names a field of the record numbered `k`, for some `k` from 1 to
/// `count`.
pub open spec fn is_record_key(key: Seq<char>, count: nat) -> bool {
    exists|name: Seq<char>, k: nat|
        #[trigger] numbered(key, name, k) && no_digits(name) && 1 <= k <= count
}

pub(crate) proof fn lemma_record_names(r: HostRecord)
    ensures
        forall|p: int|
            0 <= p < record_key_names(r).len() ==> no_digits(#[trigger] record_key_names(r)[p]),
        forall|p: int, q: int|
            0 <= p < q < record_key_names(r).len() ==> record_key_names(r)[p]
                != record_key_names(r)[q],
        forall|p: int|
            0 <= p < record_key_names(r).len() ==> #[trigger] record_key_names(r)[p].len() >= 3
                && record_tags().contains(tag(record_key_names(r)[p])),
{
    reveal_strlit("HostName");
    reveal_strlit("RecordType");
    reveal_strlit("Address");
    reveal_strlit("MXPref");
    reveal_strlit("TTL");
    let names = record_key_names(r);
    assert forall|p: int| 0 <= p < names.len() implies no_digits(#[trigger] names[p]) by {
        let w = names[p];
        assert forall|i: int| 0 <= i < w.len() implies !#[trigger] is_digit(w[i]) by {}
    }
    assert forall|p: int, q: int| 0 <= p < q < names.len() implies names[p] != names[q] by {
        assert(names[p][0] != names[q][0]);
    }
    assert forall|p: int| 0 <= p < names.len() implies #[trigger] names[p].len() >= 3
        && record_tags().contains(tag(names[p])) by {
        if p >= 3 {
            assert(names[p] == "MXPref"@ || names[p] == "TTL"@);
        }
    }
}

pub(crate) proof fn lemma_record_params_keys(r: HostRecord, n: nat)
    requires
        n >= 1,
    ensures
        record_params(r, n).len() == record_key_names(r).len(),
        forall|p: int|
            0 <= p < record_params(r, n).len() ==> numbered(
                #[trigger] record_params(r, n)[p].0,
                record_key_names(r)[p],
                n,
            ),
        keys_distinct(record_params(r, n)),
        tagged(record_params(r, n), record_tags()),
{
    let ps = record_params(r, n);
    let names = record_key_names(r);
    lemma_record_names(r);
    lemma_decimal_digits(n);
    assert(ps.len() == names.len());
    assert forall|p: int| 0 <= p < ps.len() implies numbered(#[trigger] ps[p].0, names[p], n) by {}
    assert forall|i: int, j: int| 0 <= i < j < ps.len() implies ps[i].0 != ps[j].0 by {
        assert(numbered(ps[i].0, names[i], n));
        assert(numbered(ps[j].0, names[j], n));
        if ps[i].0 == ps[j].0 {
            lemma_split_word_digits(names[i], decimal(n), names[j], decimal(n));
        }
    }
    assert forall|p: int| #![trigger ps[p]] 0 <= p < ps.len() implies ps[p].0.len() >= 3
        && record_tags().contains(tag(ps[p].0)) by {
        assert(numbered(ps[p].0, names[p], n));
        assert(names[p].len() >= 3);
        assert(tag(ps[p].0) =~= tag(names[p]));
    }
}

/// Every parameter of the first `records.len()` records names a field of
/// one of them, and no two share a name.
pub(crate) proof fn lemma_records_params_keys(records: Seq<HostRecord>)
    ensures
        forall|p: int|
            0 <= p < records_params(records).len() ==> is_record_key(
                #[trigger] records_params(records)[p].0,
                records.len(),
            ),
        keys_distinct(records_params(records)),
        tagged(records_params(records), record_tags()),
    decreases records.len(),
{
    if records.len() > 0 {
        let front = records.drop_last();
        let n = records.len();
        lemma_records_params_keys(front);
        lemma_record_params_keys(records.last(), n);
        lemma_record_names(records.last());
        let a = records_params(front);
        let b = record_params(records.last(), n);
        let all = records_params(records);
        assert(all == a + b);
        assert forall|p: int| 0 <= p < all.len() implies is_record_key(#[trigger] all[p].0, n) by {
            if p < a.len() {
                assert(all[p] == a[p]);
                assert(is_record_key(a[p].0, (n - 1) as nat));
                let (name, k) = choose|name: Seq<char>, k: nat|
                    #[trigger] numbered(a[p].0, name, k) && no_digits(name) && 1 <= k <= n - 1;
                assert(numbered(all[p].0, name, k));
            } else {
                let q = p - a.len();
                assert(all[p] == b[q]);
                assert(numbered(b[q].0, record_key_names(records.last())[q], n));
            }
        }
        assert forall|i: int, j: int| 0 <= i < j < all.len() implies all[i].0 != all[j].0 by {
            if j < a.len() {
                assert(all[i] == a[i] && all[j] == a[j]);
            } else if i >= a.len() {
                assert(all[i] == b[i - a.len()] && all[j] == b[j - a.len()]);
            } else {
                assert(all[i] == a[i] && all[j] == b[j - a.len()]);
                assert(is_record_key(a[i].0, (n - 1) as nat));
                let (name, k) = choose|name: Seq<char>, k: nat|
                    #[trigger] numbered(a[i].0, name, k) && no_digits(name) && 1 <= k <= n - 1;
                let q = j - a.len();
                let other = record_key_names(records.last())[q];
                assert(numbered(b[q].0, other, n));
                if all[i].0 == all[j].0 {
                    lemma_decimal_digits(k);
                    lemma_decimal_digits(n);
                    lemma_split_word_digits(name, decimal(k), other, decimal(n));
                    lemma_decimal_injective(k, n);
                }
            }
        }
        lemma_tagged_concat(a, b, record_tags());
    }
}

/// A key without digits is never the key of a numbered record field.
pub(crate) proof fn lemma_plain_key_is_no_record_key(key: Seq<char>, numbered_key: Seq<char>, count: nat)
    requires
        no_digits(key),
        is_record_key(numbered_key, count),
    ensures
        key != numbered_key,
{
    let (name, k) = choose|name: Seq<char>, k: nat|
        #[trigger] numbered(numbered_key, name, k) && no_digits(name) && 1 <= k <= count;
    lemma_decimal_digits(k);
    let d = decimal(k);
    assert(numbered_key[numbered_key.len() - 1] == d[d.len() - 1]);
    assert(is_digit(d[d.len() - 1]));
    if key == numbered_key {
        assert(!is_digit(key[key.len() - 1]));
    }
}

proof fn lemma_tagged_subset(a: Seq<(Seq<char>, Seq<char>)>, t1: Set<Seq<char>>, t2: Set<Seq<char>>)
    requires
        tagged(a, t1),
        t1.subset_of(t2),
    ensures
        tagged(a, t2),
{
    assert forall|i: int| #![trigger a[i]] 0 <= i < a.len() implies a[i].0.len() >= 3
        && t2.contains(tag(a[i].0)) by {
        assert(t1.contains(tag(a[i].0)));
    }
}

/// The tags of the names of `setHosts` parameters.
pub open spec fn set_hosts_tags() -> Set<Seq<char>> {
    record_tags().union(set![tag("SLD"@), tag("TLD"@), tag("EmailType"@)])
}

proof fn lemma_set_hosts_params_keys(r: SetHostsRequest)
    ensures
        keys_distinct(set_hosts_params(r)),
        tagged(set_hosts_params(r), set_hosts_tags()),
{
    reveal_strlit("SLD");
    reveal_strlit("TLD");
    reveal_strlit("EmailType");
    let head = seq![("SLD"@, r.sld@), ("TLD"@, r.tld@)];
    let recs = records_params(r.records@);
    let tail = set_hosts_params(r).subrange((head.len() + recs.len()) as int, set_hosts_params(
        r,
    ).len() as int);
    let all = set_hosts_params(r);
    assert(all =~= head + recs + tail);
    lemma_records_params_keys(r.records@);
    assert(no_digits("SLD"@)) by {
        assert forall|i: int| 0 <= i < "SLD"@.len() implies !#[trigger] is_digit("SLD"@[i]) by {}
    }
    assert(no_digits("TLD"@)) by {
        assert forall|i: int| 0 <= i < "TLD"@.len() implies !#[trigger] is_digit("TLD"@[i]) by {}
    }
    assert(no_digits("EmailType"@)) by {
        assert forall|i: int| 0 <= i < "EmailType"@.len() implies !#[trigger] is_digit(
            "EmailType"@[i],
        ) by {}
    }
    assert(tail.len() <= 1);
    assert(tail.len() == 1 ==> tail[0].0 == "EmailType"@);
    assert forall|i: int, j: int| 0 <= i < j < all.len() implies all[i].0 != all[j].0 by {
        let h = head.len() as int;
        let m = h + recs.len();
        if j < h {
            assert(all[i].0 == "SLD"@ && all[j].0 == "TLD"@);
            assert("SLD"@[0] != "TLD"@[0]);
        } else if i >= m {
            assert(false);
        } else if i >= h && j < m {
            assert(all[i] == recs[i - h] && all[j] == recs[j - h]);
        } else if i < h && j < m {
            assert(all[j] == recs[j - h]);
            assert(is_record_key(recs[j - h].0, r.records@.len()));
            lemma_plain_key_is_no_record_key(all[i].0, recs[j - h].0, r.records@.len());
        } else if i < h {
            assert(all[j].0 == "EmailType"@);
            assert("EmailType"@[0] != all[i].0[0]);
        } else {
            assert(all[i] == recs[i - h]);
            assert(all[j].0 == "EmailType"@);
            assert(is_record_key(recs[i - h].0, r.records@.len()));
            lemma_plain_key_is_no_record_key(all[j].0, recs[i - h].0, r.records@.len());
        }
    }
    let tags = set_hosts_tags();
    assert(tagged(head, tags)) by {
        assert(tag("SLD"@) =~= "SLD"@);
        assert(tag("TLD"@) =~= "TLD"@);
    }
    assert(tagged(tail, tags)) by {
        if tail.len() == 1 {
            assert(tail[0].0 == "EmailType"@);
        }
    }
    lemma_tagged_subset(recs, record_tags(), tags);
    lemma_tagged_concat(head, recs, tags);
    lemma_tagged_concat(head + recs, tail, tags);
}

/// The names of a contact's parameters, before the role is put in front.
pub open spec fn contact_field_names(c: Contact) -> Seq<Seq<char>> {
    seq!["FirstName"@, "LastName"@, "Address1"@] + (if c.address2 is Some {
        seq!["Address2"@]
    } else {
        Seq::empty()
    }) + seq![
        "City"@,
        "StateProvince"@,
        "PostalCode"@,
        "Country"@,
        "Phone"@,
        "EmailAddress"@,
    ] + (if c.organization is Some {
        seq!["OrganizationName"@]
    } else {
        Seq::empty()
    })
}

proof fn lemma_contact_field_names(c: Contact)
    ensures
        forall|p: int, q: int|
            0 <= p < q < contact_field_names(c).len() ==> contact_field_names(c)[p]
                != contact_field_names(c)[q],
{
    reveal_strlit("FirstName");
    reveal_strlit("LastName");
    reveal_strlit("Address1");
    reveal_strlit("Address2");
    reveal_strlit("City");
    reveal_strlit("StateProvince");
    reveal_strlit("PostalCode");
    reveal_strlit("Country");
    reveal_strlit("Phone");
    reveal_strlit("EmailAddress");
    reveal_strlit("OrganizationName");
    let names = contact_field_names(c);
    assert forall|p: int, q: int| 0 <= p < q < names.len() implies names[p] != names[q] by {
        if names[p] == names[q] {
            assert(names[p][0] == names[q][0]);
            assert(names[p][1] == names[q][1]);
            assert(names[p].len() == names[q].len());
            assert(names[p][7] == names[q][7]);
        }
    }
}

/// The parameters of one contact role have distinct names, each starting
/// with the role.
proof fn lemma_contact_params_keys(role: Seq<char>, c: Contact)
    requires
        role.len() >= 3,
    ensures
        keys_distinct(contact_params(role, c)),
        tagged(contact_params(role, c), set![tag(role)]),
{
    let ps = contact_params(role, c);
    let names = contact_field_names(c);
    lemma_contact_field_names(c);
    assert(ps.len() == names.len());
    assert forall|p: int| 0 <= p < ps.len() implies #[trigger] ps[p].0 == role + names[p] by {}
    assert forall|i: int, j: int| 0 <= i < j < ps.len() implies ps[i].0 != ps[j].0 by {
        assert(ps[i].0 == role + names[i]);
        assert(ps[j].0 == role + names[j]);
        if ps[i].0 == ps[j].0 {
            assert(names[i] =~= ps[i].0.subrange(role.len() as int, ps[i].0.len() as int));
            assert(names[j] =~= ps[j].0.subrange(role.len() as int, ps[j].0.len() as int));
        }
    }
    assert forall|i: int| #![trigger ps[i]] 0 <= i < ps.len() implies ps[i].0.len() >= 3
        && set![tag(role)].contains(tag(ps[i].0)) by {
        assert(ps[i].0 == role + names[i]);
        assert(tag(ps[i].0) =~= tag(role));
    }
}

/// The tags of the names of `namecheap.domains.create` parameters.
pub open spec fn create_tags() -> Set<Seq<char>> {
    set![
        tag("DomainName"@),
        tag("Years"@),
        tag("Registrant"@),
        tag("Tech"@),
        tag("Admin"@),
        tag("AuxBilling"@),
        tag("Nameservers"@),
        tag("AddFreeWhoisguard"@),
        tag("WGEnabled"@),
    ]
}

proof fn lemma_create_params_keys(r: DomainCreateRequest)
    ensures
        keys_distinct(create_params(r)),
        tagged(create_params(r), create_tags()),
{
    reveal_strlit("DomainName");
    reveal_strlit("Years");
    reveal_strlit("Registrant");
    reveal_strlit("Tech");
    reveal_strlit("Admin");
    reveal_strlit("AuxBilling");
    reveal_strlit("Nameservers");
    reveal_strlit("AddFreeWhoisguard");
    reveal_strlit("WGEnabled");
    let top = seq![("DomainName"@, r.domain@), ("Years"@, decimal(r.years as nat))];
    let c1 = contact_params("Registrant"@, r.registrant);
    let c2 = contact_params("Tech"@, r.tech);
    let c3 = contact_params("Admin"@, r.admin);
    let c4 = contact_params("AuxBilling"@, r.aux_billing);
    let all = create_params(r);
    let ns = all.subrange(
        (top.len() + c1.len() + c2.len() + c3.len() + c4.len()) as int,
        all.len() - 2,
    );
    let tail = seq![
        ("AddFreeWhoisguard"@, yes_no_text(r.add_free_whoisguard)),
        ("WGEnabled"@, yes_no_text(r.enable_whoisguard)),
    ];
    assert(all =~= top + c1 + c2 + c3 + c4 + ns + tail);
    assert(ns.len() <= 1);
    assert(ns.len() == 1 ==> ns[0].0 == "Nameservers"@);
    let t_top = set![tag("DomainName"@), tag("Years"@)];
    let t1 = set![tag("Registrant"@)];
    let t2 = set![tag("Tech"@)];
    let t3 = set![tag("Admin"@)];
    let t4 = set![tag("AuxBilling"@)];
    let t_ns = set![tag("Nameservers"@)];
    let t_tail = set![tag("AddFreeWhoisguard"@), tag("WGEnabled"@)];
    assert(tag("DomainName"@) =~= seq!['D', 'o', 'm']);
    assert(tag("Years"@) =~= seq!['Y', 'e', 'a']);
    assert(tag("Registrant"@) =~= seq!['R', 'e', 'g']);
    assert(tag("Tech"@) =~= seq!['T', 'e', 'c']);
    assert(tag("Admin"@) =~= seq!['A', 'd', 'm']);
    assert(tag("AuxBilling"@) =~= seq!['A', 'u', 'x']);
    assert(tag("Nameservers"@) =~= seq!['N', 'a', 'm']);
    assert(tag("AddFreeWhoisguard"@) =~= seq!['A', 'd', 'd']);
    assert(tag("WGEnabled"@) =~= seq!['W', 'G', 'E']);
    assert(keys_distinct(top) && tagged(top, t_top)) by {
        assert(top[0].0[0] != top[1].0[0]);
    }
    lemma_contact_params_keys("Registrant"@, r.registrant);
    lemma_contact_params_keys("Tech"@, r.tech);
    lemma_contact_params_keys("Admin"@, r.admin);
    lemma_contact_params_keys("AuxBilling"@, r.aux_billing);
    assert(keys_distinct(ns) && tagged(ns, t_ns));
    assert(keys_distinct(tail) && tagged(tail, t_tail)) by {
        assert(tail[0].0[0] != tail[1].0[0]);
    }
    let u1 = t_top.union(t1);
    let u2 = u1.union(t2);
    let u3 = u2.union(t3);
    let u4 = u3.union(t4);
    let u5 = u4.union(t_ns);
    assert(t_top.disjoint(t1));
    lemma_concat_distinct(top, c1, t_top, t1);
    assert(u1.disjoint(t2));
    lemma_concat_distinct(top + c1, c2, u1, t2);
    assert(u2.disjoint(t3));
    lemma_concat_distinct(top + c1 + c2, c3, u2, t3);
    assert(u3.disjoint(t4));
    lemma_concat_distinct(top + c1 + c2 + c3, c4, u3, t4);
    assert(u4.disjoint(t_ns));
    lemma_concat_distinct(top + c1 + c2 + c3 + c4, ns, u4, t_ns);
    assert(u5.disjoint(t_tail));
    lemma_concat_distinct(top + c1 + c2 + c3 + c4 + ns, tail, u5, t_tail);
    assert(u5.union(t_tail) =~= create_tags());
}

/// The tags of the global parameters.
pub open spec fn global_tags() -> Set<Seq<char>> {
    set![tag("ApiUser"@), tag("UserName"@), tag("ClientIp"@), tag("Command"@)]
}

/// The tags of the `namecheap.users.getPricing` parameters.
pub open spec fn pricing_tags() -> Set<Seq<char>> {
    set![tag("ProductType"@), tag("ActionName"@)]
}

/// The tags of the `namecheap.domains.check` parameters.
pub open spec fn check_tags() -> Set<Seq<char>> {
    set![tag("DomainList"@)]
}

proof fn lemma_tag_values()
    ensures
        tag("ApiUser"@) == seq!['A', 'p', 'i'],
        tag("ApiKey"@) == seq!['A', 'p', 'i'],
        tag("UserName"@) == seq!['U', 's', 'e'],
        tag("ClientIp"@) == seq!['C', 'l', 'i'],
        tag("Command"@) == seq!['C', 'o', 'm'],
        tag("ProductType"@) == seq!['P', 'r', 'o'],
        tag("ProductCategory"@) == seq!['P', 'r', 'o'],
        tag("ProductName"@) == seq!['P', 'r', 'o'],
        tag("PromotionCode"@) == seq!['P', 'r', 'o'],
        tag("ActionName"@) == seq!['A', 'c', 't'],
        tag("DomainList"@) == seq!['D', 'o', 'm'],
        tag("HostName"@) == seq!['H', 'o', 's'],
        tag("RecordType"@) == seq!['R', 'e', 'c'],
        tag("Address"@) == seq!['A', 'd', 'd'],
        tag("MXPref"@) == seq!['M', 'X', 'P'],
        tag("TTL"@) == seq!['T', 'T', 'L'],
        tag("SLD"@) == seq!['S', 'L', 'D'],
        tag("TLD"@) == seq!['T', 'L', 'D'],
        tag("EmailType"@) == seq!['E', 'm', 'a'],
        tag("DomainName"@) == seq!['D', 'o', 'm'],
        tag("Years"@) == seq!['Y', 'e', 'a'],
        tag("Registrant"@) == seq!['R', 'e', 'g'],
        tag("Tech"@) == seq!['T', 'e', 'c'],
        tag("Admin"@) == seq!['A', 'd', 'm'],
        tag("AuxBilling"@) == seq!['A', 'u', 'x'],
        tag("Nameservers"@) == seq!['N', 'a', 'm'],
        tag("AddFreeWhoisguard"@) == seq!['A', 'd', 'd'],
        tag("WGEnabled"@) == seq!['W', 'G', 'E'],
{
    reveal_strlit("ApiUser");
    reveal_strlit("ApiKey");
    reveal_strlit("UserName");
    reveal_strlit("ClientIp");
    reveal_strlit("Command");
    reveal_strlit("ProductType");
    reveal_strlit("ProductCategory");
    reveal_strlit("ProductName");
    reveal_strlit("PromotionCode");
    reveal_strlit("ActionName");
    reveal_strlit("DomainList");
    reveal_strlit("HostName");
    reveal_strlit("RecordType");
    reveal_strlit("Address");
    reveal_strlit("MXPref");
    reveal_strlit("TTL");
    reveal_strlit("SLD");
    reveal_strlit("TLD");
    reveal_strlit("EmailType");
    reveal_strlit("DomainName");
    reveal_strlit("Years");
    reveal_strlit("Registrant");
    reveal_strlit("Tech");
    reveal_strlit("Admin");
    reveal_strlit("AuxBilling");
    reveal_strlit("Nameservers");
    reveal_strlit("AddFreeWhoisguard");
    reveal_strlit("WGEnabled");
    assert(tag("ApiUser"@) =~= seq!['A', 'p', 'i']);
    assert(tag("ApiKey"@) =~= seq!['A', 'p', 'i']);
    assert(tag("UserName"@) =~= seq!['U', 's', 'e']);
    assert(tag("ClientIp"@) =~= seq!['C', 'l', 'i']);
    assert(tag("Command"@) =~= seq!['C', 'o', 'm']);
    assert(tag("ProductType"@) =~= seq!['P', 'r', 'o']);
    assert(tag("ProductCategory"@) =~= seq!['P', 'r', 'o']);
    assert(tag("ProductName"@) =~= seq!['P', 'r', 'o']);
    assert(tag("PromotionCode"@) =~= seq!['P', 'r', 'o']);
    assert(tag("ActionName"@) =~= seq!['A', 'c', 't']);
    assert(tag("DomainList"@) =~= seq!['D', 'o', 'm']);
    assert(tag("HostName"@) =~= seq!['H', 'o', 's']);
    assert(tag("RecordType"@) =~= seq!['R', 'e', 'c']);
    assert(tag("Address"@) =~= seq!['A', 'd', 'd']);
    assert(tag("MXPref"@) =~= seq!['M', 'X', 'P']);
    assert(tag("TTL"@) =~= seq!['T', 'T', 'L']);
    assert(tag("SLD"@) =~= seq!['S', 'L', 'D']);
    assert(tag("TLD"@) =~= seq!['T', 'L', 'D']);
    assert(tag("EmailType"@) =~= seq!['E', 'm', 'a']);
    assert(tag("DomainName"@) =~= seq!['D', 'o', 'm']);
    assert(tag("Years"@) =~= seq!['Y', 'e', 'a']);
    assert(tag("Registrant"@) =~= seq!['R', 'e', 'g']);
    assert(tag("Tech"@) =~= seq!['T', 'e', 'c']);
    assert(tag("Admin"@) =~= seq!['A', 'd', 'm']);
    assert(tag("AuxBilling"@) =~= seq!['A', 'u', 'x']);
    assert(tag("Nameservers"@) =~= seq!['N', 'a', 'm']);
    assert(tag("AddFreeWhoisguard"@) =~= seq!['A', 'd', 'd']);
    assert(tag("WGEnabled"@) =~= seq!['W', 'G', 'E']);
}

proof fn lemma_global_params_keys(config: ClientConfig, command: Seq<char>)
    ensures
        keys_distinct(global_params(config, command)),
        tagged(global_params(config, command), global_tags()),
{
    reveal_strlit("ApiUser");
    reveal_strlit("ApiKey");
    reveal_strlit("UserName");
    reveal_strlit("ClientIp");
    reveal_strlit("Command");
    lemma_tag_values();
    let g = global_params(config, command);
    assert forall|i: int, j: int| 0 <= i < j < g.len() implies g[i].0 != g[j].0 by {
        assert(g[i].0[0] != g[j].0[0] || g[i].0[1] != g[j].0[1] || g[i].0[3] != g[j].0[3]);
    }
}

proof fn lemma_pricing_params_keys(r: PricingRequest)
    ensures
        keys_distinct(pricing_params(r)),
        tagged(pricing_params(r), pricing_tags()),
{
    reveal_strlit("ProductType");
    reveal_strlit("ProductCategory");
    reveal_strlit("ActionName");
    reveal_strlit("ProductName");
    reveal_strlit("PromotionCode");
    lemma_tag_values();
    let ps = pricing_params(r);
    assert forall|i: int, j: int| 0 <= i < j < ps.len() implies ps[i].0 != ps[j].0 by {
        assert(ps[i].0[0] != ps[j].0[0] || ps[i].0[3] != ps[j].0[3] || ps[i].0[7]
            != ps[j].0[7]);
    }
}

proof fn lemma_check_params_keys(domains: Seq<Seq<char>>)
    ensures
        keys_distinct(check_params_spec(domains)),
        tagged(check_params_spec(domains), check_tags()),
{
    reveal_strlit("DomainList");
    lemma_tag_values();
}

/// Every parameter name of a `setHosts` request occurs once, and once more
/// with the global parameters in front: `SLD`, `TLD`, the numbered names of
/// each record and `EmailType` are all different, so no record's field is
/// sent under another's name and no global parameter is overridden.
pub proof fn set_hosts_keys_distinct(config: ClientConfig, command: Seq<char>, r: SetHostsRequest)
    ensures
        keys_distinct(set_hosts_params(r)),
        keys_distinct(global_params(config, command) + set_hosts_params(r)),
{
    lemma_set_hosts_params_keys(r);
    lemma_global_params_keys(config, command);
    lemma_tag_values();
    assert(global_tags().disjoint(set_hosts_tags()));
    lemma_concat_distinct(
        global_params(config, command),
        set_hosts_params(r),
        global_tags(),
        set_hosts_tags(),
    );
}

/// Every parameter name of a `namecheap.domains.create` request occurs
/// once, and once more with the global parameters in front: the fields of
/// the four contact roles never collide with each other or with the domain,
/// term, nameserver and privacy settings.
pub proof fn create_keys_distinct(config: ClientConfig, command: Seq<char>, r: DomainCreateRequest)
    ensures
        keys_distinct(create_params(r)),
        keys_distinct(global_params(config, command) + create_params(r)),
{
    lemma_create_params_keys(r);
    lemma_global_params_keys(config, command);
    lemma_tag_values();
    assert(global_tags().disjoint(create_tags()));
    lemma_concat_distinct(
        global_params(config, command),
        create_params(r),
        global_tags(),
        create_tags(),
    );
}

/// Every parameter name of a `namecheap.users.getPricing` request occurs
/// once, and once more with the global parameters in front.
pub proof fn pricing_keys_distinct(config: ClientConfig, command: Seq<char>, r: PricingRequest)
    ensures
        keys_distinct(pricing_params(r)),
        keys_distinct(global_params(config, command) + pricing_params(r)),
{
    lemma_pricing_params_keys(r);
    lemma_global_params_keys(config, command);
    lemma_tag_values();
    assert(global_tags().disjoint(pricing_tags()));
    lemma_concat_distinct(
        global_params(config, command),
        pricing_params(r),
        global_tags(),
        pricing_tags(),
    );
}

/// The query of a `namecheap.domains.check` call sends each name once.
pub proof fn check_keys_distinct(config: ClientConfig, command: Seq<char>, domains: Seq<Seq<char>>)
    ensures
        keys_distinct(global_params(config, command) + check_params_spec(domains)),
{
    lemma_check_params_keys(domains);
    lemma_global_params_keys(config, command);
    lemma_tag_values();
    assert(global_tags().disjoint(check_tags()));
    lemma_concat_distinct(
        global_params(config, command),
        check_params_spec(domains),
        global_tags(),
        check_tags(),
    );
}

} // verus!
