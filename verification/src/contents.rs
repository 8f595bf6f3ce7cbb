//! What each request sends and what a pricing result holds, stated field
//! by field: every value the caller sets reaches the query under its own
//! name, and nothing is sent for a value that is not set.
use vstd::prelude::*;

use crate::client::{global_params, ClientConfig};
use crate::domains::{
    check_params_spec, contact_params, create_params, email_type_text, record_params, record_type_text,
    records_params, set_hosts_params, Contact, DomainCreateRequest, HostRecord, RecordType,
    SetHostsRequest, EmailType,
};
use crate::error::ApiErrorEntry;
use crate::params::optional_param;
use crate::properties::{
    is_record_key, lemma_plain_key_is_no_record_key, lemma_record_names, lemma_record_params_keys,
    lemma_records_params_keys, numbered, record_key_names,
};
use crate::text::{
    ascii_lowercase, decimal, joined, lemma_lower_trim, trim_removes_only_outer_white_space, trimmed, is_digit, lemma_decimal_digits, lemma_decimal_injective, lemma_split_word_digits,
    no_digits,
};
use crate::response::{reported_entries, spec_parse_bool, RawError};
use crate::users::{
    category_prices, pricing_params, product_prices, type_prices, PricingRequest,
    ProductCategoryPricing, ProductPricing, ProductTypePricing,
};

verus! {

/// `params` holds the pair `(key, value)`.
pub open spec fn sends(params: Seq<(Seq<char>, Seq<char>)>, key: Seq<char>, value: Seq<char>) -> bool {
    exists|i: int| 0 <= i < params.len() && #[trigger] params[i] == (key, value)
}

/// No pair of `params` has the name `key`.
pub open spec fn omits(params: Seq<(Seq<char>, Seq<char>)>, key: Seq<char>) -> bool {
    forall|i: int| 0 <= i < params.len() ==> #[trigger] params[i].0 != key
}

/// An optional value is sent under `key` when it is set, and nothing is
/// sent under `key` when it is not.
pub open spec fn sends_optional(
    params: Seq<(Seq<char>, Seq<char>)>,
    key: Seq<char>,
    value: Option<String>,
) -> bool {
    match value {
        Some(v) => sends(params, key, v@),
        None => omits(params, key),
    }
}

/// 1 for a value that is set, 0 otherwise.
pub open spec fn set_count(value: Option<String>) -> int {
    if value is Some {
        1
    } else {
        0
    }
}

pub(crate) proof fn lemma_sends_left(
    a: Seq<(Seq<char>, Seq<char>)>,
    b: Seq<(Seq<char>, Seq<char>)>,
    key: Seq<char>,
    value: Seq<char>,
)
    requires
        sends(a, key, value),
    ensures
        sends(a + b, key, value),
{
    let i = choose|i: int| 0 <= i < a.len() && #[trigger] a[i] == (key, value);
    assert((a + b)[i] == a[i]);
}

pub(crate) proof fn lemma_sends_right(
    a: Seq<(Seq<char>, Seq<char>)>,
    b: Seq<(Seq<char>, Seq<char>)>,
    key: Seq<char>,
    value: Seq<char>,
)
    requires
        sends(b, key, value),
    ensures
        sends(a + b, key, value),
{
    let i = choose|i: int| 0 <= i < b.len() && #[trigger] b[i] == (key, value);
    assert((a + b)[a.len() + i] == b[i]);
}

pub(crate) proof fn lemma_omits_concat(
    a: Seq<(Seq<char>, Seq<char>)>,
    b: Seq<(Seq<char>, Seq<char>)>,
    key: Seq<char>,
)
    requires
        omits(a, key),
        omits(b, key),
    ensures
        omits(a + b, key),
{
    assert forall|i: int| 0 <= i < (a + b).len() implies #[trigger] (a + b)[i].0 != key by {
        if i < a.len() {
            assert((a + b)[i] == a[i]);
        } else {
            assert((a + b)[i] == b[i - a.len()]);
        }
    }
}

/// Every pair of `params` is sent, wherever `params` stands in a query.
pub(crate) proof fn lemma_sends_all(
    before: Seq<(Seq<char>, Seq<char>)>,
    params: Seq<(Seq<char>, Seq<char>)>,
    after: Seq<(Seq<char>, Seq<char>)>,
)
    ensures
        forall|i: int|
            0 <= i < params.len() ==> sends(before + params + after, #[trigger] params[i].0, params[i].1),
{
    assert forall|i: int| 0 <= i < params.len() implies sends(
        before + params + after,
        #[trigger] params[i].0,
        params[i].1,
    ) by {
        assert((before + params + after)[before.len() + i] == params[i]);
    }
}

/// An optional parameter under `name` sends its value, when set, and
/// nothing under any other name.
proof fn lemma_optional_param(name: Seq<char>, value: Option<String>, other: Seq<char>)
    requires
        name != other,
    ensures
        sends_optional(optional_param(name, value), name, value),
        omits(optional_param(name, value), other),
        optional_param(name, value).len() == set_count(value),
{
    if let Some(v) = value {
        assert(optional_param(name, value)[0] == (name, v@));
    }
}

/// The query of every command starts with the credentials of the
/// configuration, in order `ApiUser`, `ApiKey`, `UserName`, `ClientIp`,
/// then the command, and continues with the command's own parameters
/// unchanged: the configured account user name is the one sent, even when
/// it differs from the API user.
pub proof fn query_sends_credentials(
    config: ClientConfig,
    command: Seq<char>,
    params: Seq<(Seq<char>, Seq<char>)>,
)
    ensures
        (global_params(config, command) + params).len() == params.len() + 5,
        (global_params(config, command) + params)[0] == ("ApiUser"@, config.api_user@),
        (global_params(config, command) + params)[1] == ("ApiKey"@, config.api_key@),
        (global_params(config, command) + params)[2] == ("UserName"@, config.user_name@),
        (global_params(config, command) + params)[3] == ("ClientIp"@, config.client_ip@),
        (global_params(config, command) + params)[4] == ("Command"@, command),
        (global_params(config, command) + params).subrange(5, params.len() + 5int) == params,
{
    let q = global_params(config, command) + params;
    assert(q.subrange(5, params.len() + 5int) =~= params);
}

/// A `namecheap.users.getPricing` request sends its product type, and each
/// of the category, action, product name and promotion code exactly when
/// it is set, whatever the other fields are; nothing else is sent.
pub proof fn pricing_sends_exactly_the_set_fields(r: PricingRequest)
    ensures
        sends(pricing_params(r), "ProductType"@, r.product_type@),
        sends_optional(pricing_params(r), "ProductCategory"@, r.product_category),
        sends_optional(pricing_params(r), "ActionName"@, r.action_name),
        sends_optional(pricing_params(r), "ProductName"@, r.product_name),
        sends_optional(pricing_params(r), "PromotionCode"@, r.promotion_code),
        pricing_params(r).len() == 1 + set_count(r.product_category) + set_count(r.action_name)
            + set_count(r.product_name) + set_count(r.promotion_code),
{
    reveal_strlit("ProductType");
    reveal_strlit("ProductCategory");
    reveal_strlit("ActionName");
    reveal_strlit("ProductName");
    reveal_strlit("PromotionCode");
    let kt = "ProductType"@;
    let kc = "ProductCategory"@;
    let ka = "ActionName"@;
    let kn = "ProductName"@;
    let kp = "PromotionCode"@;
    assert(kt != kc && kt != ka && kt != kp && kc != ka && kc != kn && kc != kp && ka != kn
        && ka != kp && kn != kp) by {
        assert(kt.len() != kc.len());
        assert(kt.len() != ka.len());
        assert(kt.len() != kp.len());
        assert(kc.len() != ka.len());
        assert(kc.len() != kn.len());
        assert(kc.len() != kp.len());
        assert(ka.len() != kn.len());
        assert(ka.len() != kp.len());
        assert(kn.len() != kp.len());
    }
    assert(kt != kn) by {
        assert(kt[7] != kn[7]);
    }
    let head = seq![(kt, r.product_type@)];
    let oc = optional_param(kc, r.product_category);
    let oa = optional_param(ka, r.action_name);
    let on = optional_param(kn, r.product_name);
    let op = optional_param(kp, r.promotion_code);
    let p = pricing_params(r);
    assert(p == head + oc + oa + on + op);
    assert(head[0] == (kt, r.product_type@));
    lemma_sends_left(head, oc + oa + on + op, kt, r.product_type@);
    assert(head + (oc + oa + on + op) =~= p);
    // Each optional field, against the other names.
    lemma_optional_param(kc, r.product_category, ka);
    lemma_optional_param(ka, r.action_name, kc);
    lemma_optional_param(kn, r.product_name, kc);
    lemma_optional_param(kp, r.promotion_code, kc);
    assert(omits(head, kc) && omits(head, ka) && omits(head, kn) && omits(head, kp));
    // ProductCategory
    match r.product_category {
        Some(v) => {
            lemma_sends_right(head, oc, kc, v@);
            lemma_sends_left(head + oc, oa, kc, v@);
            lemma_sends_left(head + oc + oa, on, kc, v@);
            lemma_sends_left(head + oc + oa + on, op, kc, v@);
        },
        None => {
            lemma_optional_param(kn, r.product_name, kc);
            lemma_optional_param(kp, r.promotion_code, kc);
            lemma_omits_concat(head, oc, kc);
            lemma_omits_concat(head + oc, oa, kc);
            lemma_omits_concat(head + oc + oa, on, kc);
            lemma_omits_concat(head + oc + oa + on, op, kc);
        },
    }
    // ActionName
    lemma_optional_param(kc, r.product_category, ka);
    lemma_optional_param(kn, r.product_name, ka);
    lemma_optional_param(kp, r.promotion_code, ka);
    match r.action_name {
        Some(v) => {
            lemma_sends_right(head + oc, oa, ka, v@);
            lemma_sends_left(head + oc + oa, on, ka, v@);
            lemma_sends_left(head + oc + oa + on, op, ka, v@);
        },
        None => {
            lemma_optional_param(ka, r.action_name, kc);
            lemma_omits_concat(head, oc, ka);
            lemma_omits_concat(head + oc, oa, ka);
            lemma_omits_concat(head + oc + oa, on, ka);
            lemma_omits_concat(head + oc + oa + on, op, ka);
        },
    }
    // ProductName
    lemma_optional_param(kc, r.product_category, kn);
    lemma_optional_param(ka, r.action_name, kn);
    lemma_optional_param(kp, r.promotion_code, kn);
    match r.product_name {
        Some(v) => {
            lemma_sends_right(head + oc + oa, on, kn, v@);
            lemma_sends_left(head + oc + oa + on, op, kn, v@);
        },
        None => {
            lemma_optional_param(kn, r.product_name, kc);
            lemma_omits_concat(head, oc, kn);
            lemma_omits_concat(head + oc, oa, kn);
            lemma_omits_concat(head + oc + oa, on, kn);
            lemma_omits_concat(head + oc + oa + on, op, kn);
        },
    }
    // PromotionCode
    lemma_optional_param(kc, r.product_category, kp);
    lemma_optional_param(ka, r.action_name, kp);
    lemma_optional_param(kn, r.product_name, kp);
    match r.promotion_code {
        Some(v) => {
            lemma_sends_right(head + oc + oa + on, op, kp, v@);
        },
        None => {
            lemma_optional_param(kp, r.promotion_code, kc);
            lemma_omits_concat(head, oc, kp);
            lemma_omits_concat(head + oc, oa, kp);
            lemma_omits_concat(head + oc + oa, on, kp);
            lemma_omits_concat(head + oc + oa + on, op, kp);
        },
    }
}

// --- namecheap.domains.dns.setHosts -----------------------------------------

/// Every parameter of the record numbered `k` is among the parameters of
/// the records.
proof fn lemma_records_contain(records: Seq<HostRecord>, k: int)
    requires
        1 <= k <= records.len(),
    ensures
        forall|q: int|
            0 <= q < record_params(records[k - 1], k as nat).len() ==> sends(
                records_params(records),
                #[trigger] record_params(records[k - 1], k as nat)[q].0,
                record_params(records[k - 1], k as nat)[q].1,
            ),
    decreases records.len(),
{
    let n = records.len();
    let front = records.drop_last();
    let a = records_params(front);
    let b = record_params(records.last(), n as nat);
    assert(records_params(records) == a + b);
    if k == n {
        lemma_sends_all(a, b, Seq::empty());
        assert(a + b + Seq::empty() =~= a + b);
    } else {
        lemma_records_contain(front, k);
        assert(front[k - 1] == records[k - 1]);
        let own = record_params(records[k - 1], k as nat);
        assert forall|q: int| 0 <= q < own.len() implies sends(
            a + b,
            #[trigger] own[q].0,
            own[q].1,
        ) by {
            lemma_sends_left(a, b, own[q].0, own[q].1);
        }
    }
}

/// A name without digits followed by the number `k` is sent by no record,
/// unless record `k` has a field of that name.
proof fn lemma_records_omit(records: Seq<HostRecord>, name: Seq<char>, k: nat)
    requires
        no_digits(name),
        1 <= k <= records.len() ==> !record_key_names(records[k - 1]).contains(name),
    ensures
        omits(records_params(records), name + decimal(k)),
    decreases records.len(),
{
    if records.len() > 0 {
        let n = records.len();
        let front = records.drop_last();
        if 1 <= k <= n - 1 {
            assert(front[k - 1] == records[k - 1]);
        }
        lemma_records_omit(front, name, k);
        let a = records_params(front);
        let b = record_params(records.last(), n);
        assert(records_params(records) == a + b);
        lemma_record_params_keys(records.last(), n);
        lemma_record_names(records.last());
        let names = record_key_names(records.last());
        assert forall|q: int| 0 <= q < b.len() implies #[trigger] b[q].0 != name + decimal(k) by {
            let other = names[q];
            assert(numbered(b[q].0, other, n));
            assert(no_digits(other));
            if b[q].0 == name + decimal(k) {
                lemma_decimal_digits(k);
                lemma_decimal_digits(n);
                lemma_split_word_digits(name, decimal(k), other, decimal(n));
                lemma_decimal_injective(k, n);
                assert(names[q] == name);
                assert(records[k - 1] == records.last());
                assert(names.contains(name));
            }
        }
        lemma_omits_concat(a, b, name + decimal(k));
    }
}

/// A name that ends in a digit is neither `SLD`, `TLD` nor `EmailType`.
proof fn lemma_domain_part_omits(r: SetHostsRequest, key: Seq<char>)
    requires
        key.len() > 0,
        is_digit(key[key.len() - 1]),
    ensures
        omits(seq![("SLD"@, r.sld@), ("TLD"@, r.tld@)], key),
        omits(set_hosts_email(r), key),
{
    reveal_strlit("SLD");
    reveal_strlit("TLD");
    reveal_strlit("EmailType");
    assert("SLD"@ != key) by {
        assert(!is_digit("SLD"@[2]));
    }
    assert("TLD"@ != key) by {
        assert(!is_digit("TLD"@[2]));
    }
    assert("EmailType"@ != key) by {
        assert(!is_digit("EmailType"@[8]));
    }
    let head = seq![("SLD"@, r.sld@), ("TLD"@, r.tld@)];
    assert forall|i: int| 0 <= i < head.len() implies #[trigger] head[i].0 != key by {}
    let tail = set_hosts_email(r);
    assert forall|i: int| 0 <= i < tail.len() implies #[trigger] tail[i].0 != key by {}
}

/// The trailing `EmailType` parameter of a `setHosts` request, if any.
pub open spec fn set_hosts_email(r: SetHostsRequest) -> Seq<(Seq<char>, Seq<char>)> {
    match r.email_type {
        Some(e) => seq![("EmailType"@, email_type_text(e))],
        None => Seq::empty(),
    }
}

proof fn lemma_set_hosts_parts(r: SetHostsRequest)
    ensures
        set_hosts_params(r) == seq![("SLD"@, r.sld@), ("TLD"@, r.tld@)] + records_params(r.records@)
            + set_hosts_email(r),
{
}

/// The key of a record field that ends in the record's number ends in a
/// digit.
proof fn lemma_numbered_key(name: Seq<char>, k: nat)
    ensures
        (name + decimal(k)).len() > 0,
        is_digit((name + decimal(k))[(name + decimal(k)).len() - 1]),
{
    lemma_decimal_digits(k);
    let d = decimal(k);
    assert((name + d)[(name + d).len() - 1] == d[d.len() - 1]);
}

/// A `setHosts` request sends every record under its own number, from 1:
/// the record's host name, type and address unchanged, its TTL when it has
/// one, and its `MX` preference when it has one, or 10 for an `MX` record
/// without one. No TTL is sent for a record without one, and no preference
/// for a record that is neither `MX` nor given one.
pub proof fn set_hosts_sends_every_record(r: SetHostsRequest, k: int)
    requires
        1 <= k <= r.records.len(),
    ensures
        sends(set_hosts_params(r), "HostName"@ + decimal(k as nat), r.records@[k - 1].host_name@),
        sends(
            set_hosts_params(r),
            "RecordType"@ + decimal(k as nat),
            record_type_text(r.records@[k - 1].record_type),
        ),
        sends(set_hosts_params(r), "Address"@ + decimal(k as nat), r.records@[k - 1].address@),
        r.records@[k - 1].mx_pref matches Some(m) ==> sends(
            set_hosts_params(r),
            "MXPref"@ + decimal(k as nat),
            decimal(m as nat),
        ),
        (r.records@[k - 1].mx_pref is None && r.records@[k - 1].record_type == RecordType::Mx)
            ==> sends(set_hosts_params(r), "MXPref"@ + decimal(k as nat), "10"@),
        (r.records@[k - 1].mx_pref is None && r.records@[k - 1].record_type != RecordType::Mx)
            ==> omits(set_hosts_params(r), "MXPref"@ + decimal(k as nat)),
        r.records@[k - 1].ttl matches Some(t) ==> sends(
            set_hosts_params(r),
            "TTL"@ + decimal(k as nat),
            decimal(t as nat),
        ),
        r.records@[k - 1].ttl is None ==> omits(set_hosts_params(r), "TTL"@ + decimal(k as nat)),
{
    reveal_strlit("HostName");
    reveal_strlit("RecordType");
    reveal_strlit("Address");
    reveal_strlit("MXPref");
    reveal_strlit("TTL");
    reveal_strlit("10");
    let records = r.records@;
    let rec = records[k - 1];
    let idx = decimal(k as nat);
    let head = seq![("SLD"@, r.sld@), ("TLD"@, r.tld@)];
    let recs = records_params(records);
    let tail = set_hosts_email(r);
    lemma_set_hosts_parts(r);
    lemma_records_contain(records, k);
    let own = record_params(rec, k as nat);
    assert forall|q: int| 0 <= q < own.len() implies sends(
        set_hosts_params(r),
        #[trigger] own[q].0,
        own[q].1,
    ) by {
        lemma_sends_right(head, recs, own[q].0, own[q].1);
        lemma_sends_left(head + recs, tail, own[q].0, own[q].1);
    }
    assert(own[0] == ("HostName"@ + idx, rec.host_name@));
    assert(own[1] == ("RecordType"@ + idx, record_type_text(rec.record_type)));
    assert(own[2] == ("Address"@ + idx, rec.address@));
    assert(sends(set_hosts_params(r), own[0].0, own[0].1));
    assert(sends(set_hosts_params(r), own[1].0, own[1].1));
    assert(sends(set_hosts_params(r), own[2].0, own[2].1));
    if let Some(m) = rec.mx_pref {
        assert(own[3] == ("MXPref"@ + idx, decimal(m as nat)));
        assert(sends(set_hosts_params(r), own[3].0, own[3].1));
    } else if rec.record_type == RecordType::Mx {
        assert(decimal(1) =~= seq!['1']);
        assert(decimal(10) =~= decimal(1).push('0'));
        assert(decimal(10) =~= "10"@);
        assert(own[3] == ("MXPref"@ + idx, decimal(10)));
        assert(sends(set_hosts_params(r), own[3].0, own[3].1));
    }
    if let Some(t) = rec.ttl {
        assert(own[own.len() - 1] == ("TTL"@ + idx, decimal(t as nat)));
        assert(sends(set_hosts_params(r), own[own.len() - 1].0, own[own.len() - 1].1));
    }
    let no_pref = rec.mx_pref is None && rec.record_type != RecordType::Mx;
    if no_pref || rec.ttl is None {
        lemma_record_names(rec);
    }
    if no_pref {
        let name = "MXPref"@;
        assert(no_digits(name)) by {
            assert forall|i: int| 0 <= i < name.len() implies !#[trigger] is_digit(name[i]) by {}
        }
        assert(!record_key_names(rec).contains(name)) by {
            if record_key_names(rec).contains(name) {
                let q = choose|q: int| 0 <= q < record_key_names(rec).len() && record_key_names(rec)[q] == name;
                assert(record_key_names(rec)[q][0] != name[0]);
            }
        }
        lemma_records_omit(records, name, k as nat);
        lemma_numbered_key(name, k as nat);
        lemma_domain_part_omits(r, name + idx);
        lemma_omits_concat(head, recs, name + idx);
        lemma_omits_concat(head + recs, tail, name + idx);
    }
    if rec.ttl is None {
        let name = "TTL"@;
        assert(no_digits(name)) by {
            assert forall|i: int| 0 <= i < name.len() implies !#[trigger] is_digit(name[i]) by {}
        }
        assert(!record_key_names(rec).contains(name)) by {
            if record_key_names(rec).contains(name) {
                let q = choose|q: int| 0 <= q < record_key_names(rec).len() && record_key_names(rec)[q] == name;
                assert(record_key_names(rec)[q][0] != name[0] || record_key_names(rec)[q][1] != name[1]);
            }
        }
        lemma_records_omit(records, name, k as nat);
        lemma_numbered_key(name, k as nat);
        lemma_domain_part_omits(r, name + idx);
        lemma_omits_concat(head, recs, name + idx);
        lemma_omits_concat(head + recs, tail, name + idx);
    }
}

/// The number of parameters a record is sent with: host name, type and
/// address, a preference when it has one or is an `MX` record, and a TTL
/// when it has one.
pub open spec fn record_field_count(rec: HostRecord) -> nat {
    3 + (if rec.mx_pref is Some || rec.record_type == RecordType::Mx {
        1nat
    } else {
        0nat
    }) + (if rec.ttl is Some {
        1nat
    } else {
        0nat
    })
}

/// The number of parameters of all `records` together.
pub open spec fn records_field_count(records: Seq<HostRecord>) -> nat
    decreases records.len(),
{
    if records.len() == 0 {
        0
    } else {
        records_field_count(records.drop_last()) + record_field_count(records.last())
    }
}

proof fn lemma_records_len(records: Seq<HostRecord>)
    ensures
        records_params(records).len() == records_field_count(records),
    decreases records.len(),
{
    if records.len() > 0 {
        lemma_records_len(records.drop_last());
    }
}

/// A `setHosts` request sends its second-level and top-level domain, and
/// its email type exactly when one is set. Records are numbered from 1 to
/// their count, so no field is sent under another number. Nothing else is
/// sent: the query holds exactly two domain parameters, the parameters of
/// each record and the email type.
pub proof fn set_hosts_sends_domain_and_numbers(r: SetHostsRequest, name: Seq<char>, k: nat)
    requires
        no_digits(name),
    ensures
        sends(set_hosts_params(r), "SLD"@, r.sld@),
        sends(set_hosts_params(r), "TLD"@, r.tld@),
        r.email_type matches Some(e) ==> sends(set_hosts_params(r), "EmailType"@, email_type_text(e)),
        r.email_type is None ==> omits(set_hosts_params(r), "EmailType"@),
        (k == 0 || k > r.records.len()) ==> omits(set_hosts_params(r), name + decimal(k)),
        set_hosts_params(r).len() == 2 + records_field_count(r.records@) + (if r.email_type is Some {
            1int
        } else {
            0int
        }),
{
    reveal_strlit("SLD");
    reveal_strlit("TLD");
    reveal_strlit("EmailType");
    let head = seq![("SLD"@, r.sld@), ("TLD"@, r.tld@)];
    let recs = records_params(r.records@);
    let tail = set_hosts_email(r);
    let p = set_hosts_params(r);
    lemma_set_hosts_parts(r);
    lemma_records_len(r.records@);
    assert(head[0] == ("SLD"@, r.sld@));
    assert(head[1] == ("TLD"@, r.tld@));
    assert(p[0] == head[0] && p[1] == head[1]);
    if let Some(e) = r.email_type {
        assert(p[p.len() - 1] == ("EmailType"@, email_type_text(e)));
    } else {
        let key = "EmailType"@;
        assert(no_digits(key)) by {
            assert forall|i: int| 0 <= i < key.len() implies !#[trigger] is_digit(key[i]) by {}
        }
        lemma_records_params_keys(r.records@);
        assert forall|i: int| 0 <= i < p.len() implies #[trigger] p[i].0 != key by {
            if i < 2 {
                assert(p[i].0[0] != key[0]);
            } else {
                assert(p[i] == recs[i - 2]);
                assert(is_record_key(recs[i - 2].0, r.records@.len()));
                lemma_plain_key_is_no_record_key(key, recs[i - 2].0, r.records@.len());
            }
        }
    }
    if k == 0 || k > r.records.len() {
        lemma_records_omit(r.records@, name, k);
        lemma_numbered_key(name, k);
        lemma_domain_part_omits(r, name + decimal(k));
        lemma_omits_concat(head, recs, name + decimal(k));
        lemma_omits_concat(head + recs, tail, name + decimal(k));
    }
}

// --- namecheap.domains.create -----------------------------------------------

/// Every field of contact `c` is sent under the role's name followed by the
/// field's name, with the value of that field of `c`; the optional second
/// address line and organization when they are set.
pub open spec fn sends_contact(params: Seq<(Seq<char>, Seq<char>)>, role: Seq<char>, c: Contact) -> bool {
    &&& sends(params, role + "FirstName"@, c.first_name@)
    &&& sends(params, role + "LastName"@, c.last_name@)
    &&& sends(params, role + "Address1"@, c.address1@)
    &&& (c.address2 matches Some(a) ==> sends(params, role + "Address2"@, a@))
    &&& sends(params, role + "City"@, c.city@)
    &&& sends(params, role + "StateProvince"@, c.state_province@)
    &&& sends(params, role + "PostalCode"@, c.postal_code@)
    &&& sends(params, role + "Country"@, c.country@)
    &&& sends(params, role + "Phone"@, c.phone@)
    &&& sends(params, role + "EmailAddress"@, c.email_address@)
    &&& (c.organization matches Some(o) ==> sends(params, role + "OrganizationName"@, o@))
}

/// The number of parameters a contact is sent with.
pub open spec fn contact_field_count(c: Contact) -> int {
    9 + set_count(c.address2) + set_count(c.organization)
}

proof fn lemma_contact_sent(
    before: Seq<(Seq<char>, Seq<char>)>,
    role: Seq<char>,
    c: Contact,
    after: Seq<(Seq<char>, Seq<char>)>,
)
    ensures
        sends_contact(before + contact_params(role, c) + after, role, c),
        contact_params(role, c).len() == contact_field_count(c),
{
    let cp = contact_params(role, c);
    let w = before + cp + after;
    lemma_sends_all(before, cp, after);
    let off: int = set_count(c.address2);
    assert(cp[0] == (role + "FirstName"@, c.first_name@));
    assert(cp[1] == (role + "LastName"@, c.last_name@));
    assert(cp[2] == (role + "Address1"@, c.address1@));
    assert(cp[3 + off] == (role + "City"@, c.city@));
    assert(cp[4 + off] == (role + "StateProvince"@, c.state_province@));
    assert(cp[5 + off] == (role + "PostalCode"@, c.postal_code@));
    assert(cp[6 + off] == (role + "Country"@, c.country@));
    assert(cp[7 + off] == (role + "Phone"@, c.phone@));
    assert(cp[8 + off] == (role + "EmailAddress"@, c.email_address@));
    assert(sends(w, cp[0].0, cp[0].1));
    assert(sends(w, cp[1].0, cp[1].1));
    assert(sends(w, cp[2].0, cp[2].1));
    assert(sends(w, cp[3 + off].0, cp[3 + off].1));
    assert(sends(w, cp[4 + off].0, cp[4 + off].1));
    assert(sends(w, cp[5 + off].0, cp[5 + off].1));
    assert(sends(w, cp[6 + off].0, cp[6 + off].1));
    assert(sends(w, cp[7 + off].0, cp[7 + off].1));
    assert(sends(w, cp[8 + off].0, cp[8 + off].1));
    if let Some(a) = c.address2 {
        assert(cp[3] == (role + "Address2"@, a@));
        assert(sends(w, cp[3].0, cp[3].1));
    }
    if let Some(o) = c.organization {
        assert(cp[9 + off] == (role + "OrganizationName"@, o@));
        assert(sends(w, cp[9 + off].0, cp[9 + off].1));
    }
}

/// A `namecheap.domains.create` request sends the domain and the term in
/// years, every field of each of the four contact roles with that role's
/// contact, the nameservers joined by commas when there are any, and the
/// two privacy settings as `yes` or `no`. Nothing else is sent: the query
/// holds exactly these parameters.
pub proof fn create_sends_every_field(r: DomainCreateRequest)
    ensures
        sends(create_params(r), "DomainName"@, r.domain@),
        sends(create_params(r), "Years"@, decimal(r.years as nat)),
        sends_contact(create_params(r), "Registrant"@, r.registrant),
        sends_contact(create_params(r), "Tech"@, r.tech),
        sends_contact(create_params(r), "Admin"@, r.admin),
        sends_contact(create_params(r), "AuxBilling"@, r.aux_billing),
        r.nameservers@.len() > 0 ==> sends(
            create_params(r),
            "Nameservers"@,
            joined(r.nameservers.deep_view(), ","@),
        ),
        sends(
            create_params(r),
            "AddFreeWhoisguard"@,
            if r.add_free_whoisguard {
                "yes"@
            } else {
                "no"@
            },
        ),
        sends(
            create_params(r),
            "WGEnabled"@,
            if r.enable_whoisguard {
                "yes"@
            } else {
                "no"@
            },
        ),
        create_params(r).len() == 4 + contact_field_count(r.registrant) + contact_field_count(
            r.tech,
        ) + contact_field_count(r.admin) + contact_field_count(r.aux_billing) + (
        if r.nameservers@.len() > 0 {
            1int
        } else {
            0int
        }),
{
    lemma_create_parts(r);
    lemma_create_registrant(r);
    lemma_create_tech(r);
    lemma_create_admin(r);
    lemma_create_aux_billing(r);
    let all = create_params(r);
    let ns = create_nameservers(r);
    let tail = create_privacy(r);
    assert(sends(all, all[0].0, all[0].1));
    assert(sends(all, all[1].0, all[1].1));
    if r.nameservers@.len() > 0 {
        assert(all[all.len() - 3] == ns[0]);
        assert(sends(all, all[all.len() - 3].0, all[all.len() - 3].1));
    }
    assert(all[all.len() - 2] == tail[0]);
    assert(all[all.len() - 1] == tail[1]);
    assert(sends(all, all[all.len() - 2].0, all[all.len() - 2].1));
    assert(sends(all, all[all.len() - 1].0, all[all.len() - 1].1));
}

proof fn lemma_create_parts(r: DomainCreateRequest)
    ensures
        create_params(r) == seq![("DomainName"@, r.domain@), ("Years"@, decimal(r.years as nat))]
            + contact_params("Registrant"@, r.registrant) + contact_params("Tech"@, r.tech)
            + contact_params("Admin"@, r.admin) + contact_params("AuxBilling"@, r.aux_billing)
            + create_nameservers(r) + create_privacy(r),
        create_params(r)[0] == ("DomainName"@, r.domain@),
        create_params(r)[1] == ("Years"@, decimal(r.years as nat)),
        create_params(r).len() == 4 + contact_field_count(r.registrant) + contact_field_count(
            r.tech,
        ) + contact_field_count(r.admin) + contact_field_count(r.aux_billing) + (
        if r.nameservers@.len() > 0 {
            1int
        } else {
            0int
        }),
{
    let top = seq![("DomainName"@, r.domain@), ("Years"@, decimal(r.years as nat))];
    let all = create_params(r);
    assert(all =~= top + contact_params("Registrant"@, r.registrant) + contact_params(
        "Tech"@,
        r.tech,
    ) + contact_params("Admin"@, r.admin) + contact_params("AuxBilling"@, r.aux_billing)
        + create_nameservers(r) + create_privacy(r));
    lemma_contact_sent(top, "Registrant"@, r.registrant, Seq::empty());
    lemma_contact_sent(top, "Tech"@, r.tech, Seq::empty());
    lemma_contact_sent(top, "Admin"@, r.admin, Seq::empty());
    lemma_contact_sent(top, "AuxBilling"@, r.aux_billing, Seq::empty());
}

proof fn lemma_create_registrant(r: DomainCreateRequest)
    requires
        create_params(r) == seq![("DomainName"@, r.domain@), ("Years"@, decimal(r.years as nat))]
            + contact_params("Registrant"@, r.registrant) + contact_params("Tech"@, r.tech)
            + contact_params("Admin"@, r.admin) + contact_params("AuxBilling"@, r.aux_billing)
            + create_nameservers(r) + create_privacy(r),
    ensures
        sends_contact(create_params(r), "Registrant"@, r.registrant),
{
    let top = seq![("DomainName"@, r.domain@), ("Years"@, decimal(r.years as nat))];
    let c1 = contact_params("Registrant"@, r.registrant);
    let c2 = contact_params("Tech"@, r.tech);
    let c3 = contact_params("Admin"@, r.admin);
    let c4 = contact_params("AuxBilling"@, r.aux_billing);
    let ns = create_nameservers(r);
    let tail = create_privacy(r);
    let all = create_params(r);
    assert(all =~= (top) + contact_params("Registrant"@, r.registrant) + (c2 + c3 + c4 + ns + tail));
    lemma_contact_sent(top, "Registrant"@, r.registrant, c2 + c3 + c4 + ns + tail);
}

proof fn lemma_create_tech(r: DomainCreateRequest)
    requires
        create_params(r) == seq![("DomainName"@, r.domain@), ("Years"@, decimal(r.years as nat))]
            + contact_params("Registrant"@, r.registrant) + contact_params("Tech"@, r.tech)
            + contact_params("Admin"@, r.admin) + contact_params("AuxBilling"@, r.aux_billing)
            + create_nameservers(r) + create_privacy(r),
    ensures
        sends_contact(create_params(r), "Tech"@, r.tech),
{
    let top = seq![("DomainName"@, r.domain@), ("Years"@, decimal(r.years as nat))];
    let c1 = contact_params("Registrant"@, r.registrant);
    let c2 = contact_params("Tech"@, r.tech);
    let c3 = contact_params("Admin"@, r.admin);
    let c4 = contact_params("AuxBilling"@, r.aux_billing);
    let ns = create_nameservers(r);
    let tail = create_privacy(r);
    let all = create_params(r);
    assert(all =~= (top + c1) + contact_params("Tech"@, r.tech) + (c3 + c4 + ns + tail));
    lemma_contact_sent(top + c1, "Tech"@, r.tech, c3 + c4 + ns + tail);
}

proof fn lemma_create_admin(r: DomainCreateRequest)
    requires
        create_params(r) == seq![("DomainName"@, r.domain@), ("Years"@, decimal(r.years as nat))]
            + contact_params("Registrant"@, r.registrant) + contact_params("Tech"@, r.tech)
            + contact_params("Admin"@, r.admin) + contact_params("AuxBilling"@, r.aux_billing)
            + create_nameservers(r) + create_privacy(r),
    ensures
        sends_contact(create_params(r), "Admin"@, r.admin),
{
    let top = seq![("DomainName"@, r.domain@), ("Years"@, decimal(r.years as nat))];
    let c1 = contact_params("Registrant"@, r.registrant);
    let c2 = contact_params("Tech"@, r.tech);
    let c3 = contact_params("Admin"@, r.admin);
    let c4 = contact_params("AuxBilling"@, r.aux_billing);
    let ns = create_nameservers(r);
    let tail = create_privacy(r);
    let all = create_params(r);
    assert(all =~= (top + c1 + c2) + contact_params("Admin"@, r.admin) + (c4 + ns + tail));
    lemma_contact_sent(top + c1 + c2, "Admin"@, r.admin, c4 + ns + tail);
}

proof fn lemma_create_aux_billing(r: DomainCreateRequest)
    requires
        create_params(r) == seq![("DomainName"@, r.domain@), ("Years"@, decimal(r.years as nat))]
            + contact_params("Registrant"@, r.registrant) + contact_params("Tech"@, r.tech)
            + contact_params("Admin"@, r.admin) + contact_params("AuxBilling"@, r.aux_billing)
            + create_nameservers(r) + create_privacy(r),
    ensures
        sends_contact(create_params(r), "AuxBilling"@, r.aux_billing),
{
    let top = seq![("DomainName"@, r.domain@), ("Years"@, decimal(r.years as nat))];
    let c1 = contact_params("Registrant"@, r.registrant);
    let c2 = contact_params("Tech"@, r.tech);
    let c3 = contact_params("Admin"@, r.admin);
    let c4 = contact_params("AuxBilling"@, r.aux_billing);
    let ns = create_nameservers(r);
    let tail = create_privacy(r);
    let all = create_params(r);
    assert(all =~= (top + c1 + c2 + c3) + contact_params("AuxBilling"@, r.aux_billing) + (ns + tail));
    lemma_contact_sent(top + c1 + c2 + c3, "AuxBilling"@, r.aux_billing, ns + tail);
}

/// The `Nameservers` parameter of a create request, when it has any.
pub open spec fn create_nameservers(r: DomainCreateRequest) -> Seq<(Seq<char>, Seq<char>)> {
    if r.nameservers@.len() > 0 {
        seq![("Nameservers"@, joined(r.nameservers.deep_view(), ","@))]
    } else {
        Seq::empty()
    }
}

/// The two privacy parameters of a create request.
pub open spec fn create_privacy(r: DomainCreateRequest) -> Seq<(Seq<char>, Seq<char>)> {
    seq![
        ("AddFreeWhoisguard"@, if r.add_free_whoisguard { "yes"@ } else { "no"@ }),
        ("WGEnabled"@, if r.enable_whoisguard { "yes"@ } else { "no"@ }),
    ]
}

// --- namecheap.users.getPricing result --------------------------------------

/// The number of price entries of `products` together.
pub open spec fn product_price_count<P>(products: Seq<ProductPricing<P>>) -> nat
    decreases products.len(),
{
    if products.len() == 0 {
        0
    } else {
        product_price_count(products.drop_last()) + products.last().prices@.len()
    }
}

/// The number of price entries of every product of `categories` together.
pub open spec fn category_price_count<P>(categories: Seq<ProductCategoryPricing<P>>) -> nat
    decreases categories.len(),
{
    if categories.len() == 0 {
        0
    } else {
        category_price_count(categories.drop_last()) + product_price_count(
            categories.last().products@,
        )
    }
}

/// The number of price entries of every product of every category of
/// `types` together.
pub open spec fn type_price_count<P>(types: Seq<ProductTypePricing<P>>) -> nat
    decreases types.len(),
{
    if types.len() == 0 {
        0
    } else {
        type_price_count(types.drop_last()) + category_price_count(types.last().categories@)
    }
}

/// The number of price entries that come before those of product `p` of
/// category `c` of product type `t`: all those of the earlier product
/// types, of the earlier categories of `t` and of the earlier products of
/// `c`.
pub open spec fn price_position<P>(types: Seq<ProductTypePricing<P>>, t: int, c: int, p: int) -> nat {
    type_price_count(types.take(t)) + category_price_count(types[t].categories@.take(c))
        + product_price_count(types[t].categories@[c].products@.take(p))
}

proof fn lemma_product_prices<P>(ps: Seq<ProductPricing<P>>, p: int, j: int)
    requires
        0 <= p < ps.len(),
        0 <= j < ps[p].prices@.len(),
    ensures
        product_prices(ps).len() == product_price_count(ps),
        product_price_count(ps.take(p)) + j < product_price_count(ps),
        product_prices(ps)[product_price_count(ps.take(p)) + j] == ps[p].prices@[j],
    decreases ps.len(),
{
    let front = ps.drop_last();
    lemma_product_len(front);
    if p == ps.len() - 1 {
        assert(ps.take(p) =~= front);
    } else {
        lemma_product_prices(front, p, j);
        assert(ps.take(p) =~= front.take(p));
    }
}

proof fn lemma_product_len<P>(ps: Seq<ProductPricing<P>>)
    ensures
        product_prices(ps).len() == product_price_count(ps),
    decreases ps.len(),
{
    if ps.len() > 0 {
        lemma_product_len(ps.drop_last());
    }
}

proof fn lemma_category_len<P>(cs: Seq<ProductCategoryPricing<P>>)
    ensures
        category_prices(cs).len() == category_price_count(cs),
    decreases cs.len(),
{
    if cs.len() > 0 {
        lemma_category_len(cs.drop_last());
        lemma_product_len(cs.last().products@);
    }
}

proof fn lemma_type_len<P>(ts: Seq<ProductTypePricing<P>>)
    ensures
        type_prices(ts).len() == type_price_count(ts),
    decreases ts.len(),
{
    if ts.len() > 0 {
        lemma_type_len(ts.drop_last());
        lemma_category_len(ts.last().categories@);
    }
}

proof fn lemma_category_prices<P>(cs: Seq<ProductCategoryPricing<P>>, c: int, p: int, j: int)
    requires
        0 <= c < cs.len(),
        0 <= p < cs[c].products@.len(),
        0 <= j < cs[c].products@[p].prices@.len(),
    ensures
        category_price_count(cs.take(c)) + product_price_count(cs[c].products@.take(p)) + j
            < category_price_count(cs),
        category_prices(cs)[category_price_count(cs.take(c)) + product_price_count(
            cs[c].products@.take(p),
        ) + j] == cs[c].products@[p].prices@[j],
    decreases cs.len(),
{
    let front = cs.drop_last();
    lemma_category_len(front);
    lemma_category_len(cs);
    if c == cs.len() - 1 {
        assert(cs.take(c) =~= front);
        lemma_product_prices(cs[c].products@, p, j);
    } else {
        lemma_category_prices(front, c, p, j);
        assert(cs.take(c) =~= front.take(c));
    }
}

proof fn lemma_type_prices<P>(ts: Seq<ProductTypePricing<P>>, t: int, c: int, p: int, j: int)
    requires
        0 <= t < ts.len(),
        0 <= c < ts[t].categories@.len(),
        0 <= p < ts[t].categories@[c].products@.len(),
        0 <= j < ts[t].categories@[c].products@[p].prices@.len(),
    ensures
        price_position(ts, t, c, p) + j < type_price_count(ts),
        type_prices(ts)[price_position(ts, t, c, p) + j]
            == ts[t].categories@[c].products@[p].prices@[j],
    decreases ts.len(),
{
    let front = ts.drop_last();
    lemma_type_len(front);
    lemma_type_len(ts);
    if t == ts.len() - 1 {
        assert(ts.take(t) =~= front);
        lemma_category_prices(ts[t].categories@, c, p, j);
    } else {
        lemma_type_prices(front, t, c, p, j);
        assert(ts.take(t) =~= front.take(t));
    }
}

/// Flattening a pricing result lists every price entry of every product of
/// every category of every product type once: there are as many entries as
/// all products hold together.
pub proof fn prices_count_every_entry<P>(types: Seq<ProductTypePricing<P>>)
    ensures
        type_prices(types).len() == type_price_count(types),
{
    lemma_type_len(types);
}

/// Flattening a pricing result keeps document order: the entries of a
/// product follow, in their own order, all entries of the product types,
/// categories and products before it, so entry `j` of product `p` of
/// category `c` of product type `t` stands at `price_position(types, t, c,
/// p) + j`.
pub proof fn prices_keep_document_order<P>(
    types: Seq<ProductTypePricing<P>>,
    t: int,
    c: int,
    p: int,
    j: int,
)
    requires
        0 <= t < types.len(),
        0 <= c < types[t].categories@.len(),
        0 <= p < types[t].categories@[c].products@.len(),
        0 <= j < types[t].categories@[c].products@[p].prices@.len(),
    ensures
        price_position(types, t, c, p) + j < type_prices(types).len(),
        type_prices(types)[price_position(types, t, c, p) + j]
            == types[t].categories@[c].products@[p].prices@[j],
{
    lemma_type_len(types);
    lemma_type_prices(types, t, c, p, j);
}

// --- attribute values --------------------------------------------------------

/// A boolean attribute is read from its spellings alone: `true`, `yes`,
/// `1` and `enabled` mean true, `false`, `no`, `0` and `disabled` mean
/// false, and every other value is none of them. White space around the
/// value and the ASCII case of its letters make no difference.
pub proof fn parse_bool_reads_namecheap_spellings(value: Seq<char>)
    ensures
        spec_parse_bool(value) == Some(true) <==> set!["true"@, "yes"@, "1"@, "enabled"@].contains(
            ascii_lowercase(trimmed(value)),
        ),
        spec_parse_bool(value) == Some(false) <==> set!["false"@, "no"@, "0"@, "disabled"@].contains(
            ascii_lowercase(trimmed(value)),
        ),
        spec_parse_bool(trimmed(value)) == spec_parse_bool(value),
        spec_parse_bool(ascii_lowercase(value)) == spec_parse_bool(value),
{
    reveal_strlit("true");
    reveal_strlit("yes");
    reveal_strlit("1");
    reveal_strlit("enabled");
    reveal_strlit("false");
    reveal_strlit("no");
    reveal_strlit("0");
    reveal_strlit("disabled");
    trim_removes_only_outer_white_space(value);
    lemma_lower_trim(value);
    lemma_lower_trim(trimmed(value));
    let w = ascii_lowercase(trimmed(value));
    let yes = set!["true"@, "yes"@, "1"@, "enabled"@];
    let no = set!["false"@, "no"@, "0"@, "disabled"@];
    assert(yes.contains(w) ==> !no.contains(w)) by {
        if yes.contains(w) && no.contains(w) {
            assert(w.len() == 4 || w.len() == 3 || w.len() == 1 || w.len() == 7);
            if w.len() == 1 {
                assert(w[0] == '1' || w[0] == '0');
            }
        }
    }
}

// --- namecheap.domains.check -----------------------------------------------

/// A `namecheap.domains.check` request sends one parameter, `DomainList`,
/// holding every domain in order with a comma between neighbours: the list
/// of two runs of domains is the list of the first, a comma, and the list of
/// the second.
pub proof fn check_sends_domain_list(a: Seq<Seq<char>>, b: Seq<Seq<char>>)
    ensures
        check_params_spec(a + b).len() == 1,
        check_params_spec(a + b)[0].0 == "DomainList"@,
        a.len() > 0 && b.len() > 0 ==> check_params_spec(a + b)[0].1 == check_params_spec(a)[0].1
            + ","@ + check_params_spec(b)[0].1,
        a.len() == 1 && b.len() == 0 ==> check_params_spec(a + b)[0].1 == a[0],
{
    if a.len() > 0 && b.len() > 0 {
        crate::text::join_splits_at_separator(a, b, ","@);
    }
    if a.len() == 1 && b.len() == 0 {
        assert(a + b =~= a);
    }
}

// --- record and email types --------------------------------------------------

/// Different record types are sent as different, non-empty values.
pub proof fn record_type_texts_differ(a: RecordType, b: RecordType)
    ensures
        record_type_text(a).len() > 0,
        record_type_text(a) == record_type_text(b) ==> a == b,
{
    reveal_strlit("A");
    reveal_strlit("AAAA");
    reveal_strlit("CNAME");
    reveal_strlit("MX");
    reveal_strlit("MXE");
    reveal_strlit("TXT");
    reveal_strlit("NS");
    reveal_strlit("URL");
    reveal_strlit("URL301");
    reveal_strlit("FRAME");
    reveal_strlit("CAA");
    let ta = record_type_text(a);
    let tb = record_type_text(b);
    if ta == tb {
        assert(ta.len() == tb.len());
        assert(ta[0] == tb[0]);
        assert(ta.len() >= 2 ==> ta[1] == tb[1]);
        assert(ta.len() >= 3 ==> ta[2] == tb[2]);
    }
}

/// Different email types are sent as different, non-empty values.
pub proof fn email_type_texts_differ(a: EmailType, b: EmailType)
    ensures
        email_type_text(a).len() > 0,
        email_type_text(a) == email_type_text(b) ==> a == b,
{
    reveal_strlit("MX");
    reveal_strlit("MXE");
    reveal_strlit("FWD");
    reveal_strlit("OX");
    reveal_strlit("GMAIL");
    let ta = email_type_text(a);
    let tb = email_type_text(b);
    if ta == tb {
        assert(ta.len() == tb.len());
        assert(ta[0] == tb[0]);
    }
}

// --- API errors ---------------------------------------------------------------

/// The API error of an envelope keeps every reported entry, in order, with
/// its number unchanged and its message with the surrounding white space
/// removed and nothing else.
pub proof fn api_error_keeps_every_entry(raw: Seq<RawError>, entries: Seq<ApiErrorEntry>, i: int)
    requires
        reported_entries(raw, entries),
        0 <= i < raw.len(),
    ensures
        entries.len() == raw.len(),
        entries[i].number@ == raw[i].number@,
        entries[i].message@ == trimmed(raw[i].message@),
{
    assert(entries[i].number == raw[i].number);
}

} // verus!
