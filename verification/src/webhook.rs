//! Webhooks of applications: signing secrets and synchronisation plans.
use vstd::prelude::*;
use rand::Rng;
use crate::error::VaultlessError;
use crate::ident::uuid_text;
use crate::hexadecimal::{hex_text, encode_hex};
use crate::keys::id_chars;
use crate::text::{chars_of, string_of, append_chars};

verus! {

/// Thirty-two random bytes.
///
/// Calls `rand::rng().random::<[u8; 32]>()`; nothing is promised of the
/// bytes.
#[verifier::external_body]
pub(crate) fn random_32_bytes() -> (b: [u8; 32]) {
    rand::rng().random::<[u8; 32]>()
}

/// A stored webhook.
#[derive(Debug)]
pub struct WebhookRecord {
    pub id: u128,
    pub application_id: u128,
    pub url: String,
    pub event_type: String,
    pub signing_secret: String,
    pub is_active: bool,
    pub created_at: i64,
    pub updated_at: i64,
}

/// A signing secret: `whsec_` followed by the hexadecimal text of the
/// secret bytes.
pub open spec fn secret_text(bytes: Seq<u8>) -> Seq<char> {
    "whsec_"@ + hex_text(bytes)
}

impl WebhookRecord {
    /// The signing secret made of the given bytes.
    pub fn signing_secret_from(secret: &[u8; 32]) -> (s: String)
        ensures
            s@ == secret_text(secret@),
            s@.len() == 70,
    {
        let mut out = chars_of("whsec_");
        let h = encode_hex(secret);
        append_chars(&mut out, &chars_of(h.as_str()));
        proof {
            reveal_strlit("whsec_");
        }
        string_of(&out)
    }

    /// A fresh signing secret: `whsec_` and 64 hexadecimal digits of
    /// random bytes.
    pub fn generate_signing_secret() -> (s: String)
        ensures
            s@.len() == 70,
            exists|b: Seq<u8>| b.len() == 32 && s@ == secret_text(b),
    {
        let bytes = random_32_bytes();
        WebhookRecord::signing_secret_from(&bytes)
    }
}

/// What synchronising an application's webhooks does.
#[derive(Debug)]
pub struct WebhookSyncPlan {
    /// Indices of the inputs without identifier: created.
    pub to_create: Vec<usize>,
    /// Identifiers and indices of the inputs with one: updated.
    pub to_update: Vec<(u128, usize)>,
    /// Stored webhooks no input names: deleted.
    pub to_delete: Vec<u128>,
}

/// The indices of the inputs without identifier, in order.
pub open spec fn creations(ids: Seq<Option<u128>>) -> Seq<usize>
    decreases ids.len(),
{
    if ids.len() == 0 {
        Seq::empty()
    } else if ids.last() is None {
        creations(ids.drop_last()).push((ids.len() - 1) as usize)
    } else {
        creations(ids.drop_last())
    }
}

/// The identifiers and indices of the inputs with one, in order.
pub open spec fn updates(ids: Seq<Option<u128>>) -> Seq<(u128, usize)>
    decreases ids.len(),
{
    if ids.len() == 0 {
        Seq::empty()
    } else {
        match ids.last() {
            Some(id) => updates(ids.drop_last()).push((id, (ids.len() - 1) as usize)),
            None => updates(ids.drop_last()),
        }
    }
}

/// The stored identifiers no input names, in stored order.
pub open spec fn deletions(existing: Seq<u128>, ids: Seq<Option<u128>>) -> Seq<u128>
    decreases existing.len(),
{
    if existing.len() == 0 {
        Seq::empty()
    } else if ids.contains(Some(existing.last())) {
        deletions(existing.drop_last(), ids)
    } else {
        deletions(existing.drop_last(), ids).push(existing.last())
    }
}

/// Plans the synchronisation of stored webhooks `existing` with inputs
/// whose identifiers are `input_ids`.
pub fn plan_webhook_sync(existing: &Vec<u128>, input_ids: &Vec<Option<u128>>) -> (p: WebhookSyncPlan)
    ensures
        p.to_create@ == creations(input_ids@),
        p.to_update@ == updates(input_ids@),
        p.to_delete@ == deletions(existing@, input_ids@),
{
    let mut to_create: Vec<usize> = Vec::new();
    let mut to_update: Vec<(u128, usize)> = Vec::new();
    let mut i: usize = 0;
    while i < input_ids.len()
        invariant
            i <= input_ids.len(),
            to_create@ == creations(input_ids@.subrange(0, i as int)),
            to_update@ == updates(input_ids@.subrange(0, i as int)),
        decreases input_ids.len() - i,
    {
        assert(input_ids@.subrange(0, i + 1).drop_last() =~= input_ids@.subrange(0, i as int));
        match input_ids[i] {
            Some(id) => to_update.push((id, i)),
            None => to_create.push(i),
        }
        i = i + 1;
    }
    assert(input_ids@.subrange(0, i as int) =~= input_ids@);
    let mut to_delete: Vec<u128> = Vec::new();
    let mut j: usize = 0;
    while j < existing.len()
        invariant
            j <= existing.len(),
            to_delete@ == deletions(existing@.subrange(0, j as int), input_ids@),
        decreases existing.len() - j,
    {
        assert(existing@.subrange(0, j + 1).drop_last() =~= existing@.subrange(0, j as int));
        let e = existing[j];
        let mut named = false;
        let mut k: usize = 0;
        while k < input_ids.len()
            invariant
                k <= input_ids.len(),
                named == input_ids@.subrange(0, k as int).contains(Some(e)),
            decreases input_ids.len() - k,
        {
            proof {
                let s1 = input_ids@.subrange(0, k + 1);
                assert(s1 =~= input_ids@.subrange(0, k as int).push(input_ids@[k as int]));
                if !named && input_ids@[k as int] == Some(e) {
                    assert(s1[k as int] == Some(e));
                }
                if named {
                    let w = choose|w: int| 0 <= w < k && input_ids@.subrange(0, k as int)[w] == Some(e);
                    assert(s1[w] == Some(e));
                }
            }
            if input_ids[k] == Some(e) {
                named = true;
            }
            k = k + 1;
        }
        assert(input_ids@.subrange(0, k as int) =~= input_ids@);
        if !named {
            to_delete.push(e);
        }
        j = j + 1;
    }
    assert(existing@.subrange(0, j as int) =~= existing@);
    WebhookSyncPlan { to_create, to_update, to_delete }
}

/// The refusal of an update naming a webhook the application lacks.
pub fn webhook_not_found(id: u128, application_id: u128) -> (e: VaultlessError)
    ensures
        e matches VaultlessError::NotFound(m)
            && m@ == "Webhook "@ + uuid_text(id) + " not found for application "@ + uuid_text(application_id),
{
    let mut m = chars_of("Webhook ");
    append_chars(&mut m, &id_chars(id));
    append_chars(&mut m, &chars_of(" not found for application "));
    append_chars(&mut m, &id_chars(application_id));
    VaultlessError::NotFound(string_of(&m))
}

/// The first update naming a webhook not stored, if any.
pub open spec fn first_unknown(updates: Seq<(u128, usize)>, existing: Seq<u128>) -> Option<u128>
    decreases updates.len(),
{
    if updates.len() == 0 {
        None
    } else if !existing.contains(updates[0].0) {
        Some(updates[0].0)
    } else {
        first_unknown(updates.drop_first(), existing)
    }
}

/// Finds the first update naming a webhook that is not stored.
pub fn first_unknown_update(updates: &Vec<(u128, usize)>, existing: &Vec<u128>) -> (r: Option<u128>)
    ensures
        r == first_unknown(updates@, existing@),
{
    let mut i: usize = 0;
    assert(updates@.subrange(0, updates.len() as int) =~= updates@);
    while i < updates.len()
        invariant
            i <= updates.len(),
            first_unknown(updates@, existing@) == first_unknown(updates@.subrange(i as int, updates.len() as int), existing@),
        decreases updates.len() - i,
    {
        let ghost rest = updates@.subrange(i as int, updates.len() as int);
        assert(rest.drop_first() =~= updates@.subrange(i + 1, updates.len() as int));
        let id = updates[i].0;
        let mut found = false;
        let mut k: usize = 0;
        while k < existing.len()
            invariant
                k <= existing.len(),
                found == existing@.subrange(0, k as int).contains(id),
            decreases existing.len() - k,
        {
            proof {
                let s1 = existing@.subrange(0, k + 1);
                assert(s1 =~= existing@.subrange(0, k as int).push(existing@[k as int]));
                if found {
                    let w = choose|w: int| 0 <= w < k && existing@.subrange(0, k as int)[w] == id;
                    assert(s1[w] == id);
                }
                if existing@[k as int] == id {
                    assert(s1[k as int] == id);
                }
            }
            if existing[k] == id {
                found = true;
            }
            k = k + 1;
        }
        assert(existing@.subrange(0, k as int) =~= existing@);
        if !found {
            return Some(id);
        }
        i = i + 1;
    }
    None
}

} // verus!
