//! Who receives a mailed report: entities with a registered mailbox, and for couriers
//! only those whose account is not deleted.

use vstd::prelude::*;

verus! {

/// An entity's mailbox as the database holds it.
#[derive(Debug, PartialEq, Eq)]
pub struct Mailbox {
    pub id: i64,
    pub email: Option<String>,
    pub is_deleted: bool,
}

/// An entity that receives reports, and where to.
#[derive(Debug, PartialEq, Eq)]
pub struct Recipient {
    pub id: i64,
    pub email: String,
}

/// The id and address under which `m` receives reports; `None` when it has no
/// registered (non-empty) address, or when deleted accounts are skipped and it is one.
pub open spec fn recipient_of(m: Mailbox, skip_deleted: bool) -> Option<(i64, Seq<char>)> {
    match m.email {
        Some(e) => if e@.len() > 0 && !(skip_deleted && m.is_deleted) {
            Some((m.id, e@))
        } else {
            None
        },
        None => None,
    }
}

/// What a sequence of recipients holds.
pub open spec fn recipients_view(r: Seq<Recipient>) -> Seq<(i64, Seq<char>)> {
    r.map_values(|x: Recipient| (x.id, x.email@))
}

/// The entities of `all` that receive reports, in their order.
fn recipients(all: &Vec<Mailbox>, skip_deleted: bool) -> (r: Vec<Recipient>)
    ensures
        recipients_view(r@) == all@.filter_map(|m: Mailbox| recipient_of(m, skip_deleted)),
{
    let ghost f = |m: Mailbox| recipient_of(m, skip_deleted);
    let mut out: Vec<Recipient> = Vec::new();
    let mut i: usize = 0;
    while i < all.len()
        invariant
            i <= all.len(),
            f == (|m: Mailbox| recipient_of(m, skip_deleted)),
            recipients_view(out@) =~= all@.subrange(0, i as int).filter_map(f),
        decreases all.len() - i,
    {
        let m = &all[i];
        let ghost before = out@;
        assert(all@.subrange(0, i + 1).drop_last() =~= all@.subrange(0, i as int));
        match &m.email {
            Some(e) => {
                if !e.as_str().is_empty() && !(skip_deleted && m.is_deleted) {
                    let x = Recipient { id: m.id, email: e.clone() };
                    out.push(x);
                    assert(recipients_view(out@) =~= recipients_view(before) + seq![(x.id, x.email@)]);
                }
            },
            None => {},
        }
        i = i + 1;
    }
    assert(all@.subrange(0, i as int) =~= all@);
    out
}

/// The couriers that receive their own reports: registered address, account not deleted.
pub fn courier_recipients(all: &Vec<Mailbox>) -> (r: Vec<Recipient>)
    ensures
        recipients_view(r@) == all@.filter_map(|m: Mailbox| recipient_of(m, true)),
{
    recipients(all, true)
}

/// The restaurants that receive settlements: registered address.
pub fn restaurant_recipients(all: &Vec<Mailbox>) -> (r: Vec<Recipient>)
    ensures
        recipients_view(r@) == all@.filter_map(|m: Mailbox| recipient_of(m, false)),
{
    recipients(all, false)
}

} // verus!
