//! Flattening of parsed address header values into a list of canonical
//! addresses.

use vstd::prelude::*;

use crate::email_address::EmailAddress;
use crate::mime::{
    mime_addr_list, mime_addr_spec, mime_addresses_spec, MimeAddress, MimeAddresses,
};
use crate::text::lowercase;

verus! {

/// An ordered list of canonical addresses, as flattened from one address
/// header value.
#[derive(Debug, Clone, Default, Eq, Hash, PartialEq, PartialOrd, Ord)]
pub struct EmailAddressList(pub(crate) Vec<EmailAddress>);

impl View for EmailAddressList {
    type V = Seq<Seq<char>>;

    closed spec fn view(&self) -> Seq<Seq<char>> {
        self.0.deep_view()
    }
}

/// Canonicalizes one parsed mailbox, as `mime_addr_spec` says: the address
/// lower-cased, or nothing when the mailbox has no address.
fn addr_of_mime(a: &MimeAddress) -> (r: Option<EmailAddress>)
    ensures
        crate::imap::opt_addr_view(r) == mime_addr_spec(*a),
{
    match &a.address {
        Option::Some(s) => Option::Some(EmailAddress::new_canonical(lowercase(s.as_str()))),
        Option::None => Option::None,
    }
}

/// Collects the canonical addresses of a flat mailbox list.
fn mime_addrs_vec(addrs: &Vec<MimeAddress>) -> (r: Vec<EmailAddress>)
    ensures
        r.deep_view() == mime_addr_list(addrs@),
{
    let mut r: Vec<EmailAddress> = Vec::new();
    let n = addrs.len();
    let mut i: usize = 0;
    while i < n
        invariant
            0 <= i <= n,
            n == addrs@.len(),
            r.deep_view() =~= mime_addr_list(addrs@.subrange(0, i as int)),
        decreases n - i,
    {
        let ghost pre = addrs@.subrange(0, i as int);
        match addr_of_mime(&addrs[i]) {
            Option::Some(a) => {
                r.push(a);
            },
            Option::None => {},
        }
        i = i + 1;
        proof {
            let p = addrs@.subrange(0, i as int);
            assert(p.drop_last() =~= pre);
            assert(r.deep_view() =~= mime_addr_list(p));
        }
    }
    proof {
        assert(addrs@.subrange(0, n as int) =~= addrs@);
        assert(r.deep_view() =~= mime_addr_list(addrs@));
    }
    r
}

impl EmailAddressList {
    /// Flattens one address header value: a flat list is canonicalized in
    /// order, a grouped list is flattened group by group; mailboxes without
    /// an address are dropped silently.
    pub fn from_addresses(a: &MimeAddresses) -> (r: EmailAddressList)
        ensures
            r@ == mime_addresses_spec(*a),
    {
        let mut out: Vec<EmailAddress> = Vec::new();
        match a {
            MimeAddresses::List(l) => {
                out = mime_addrs_vec(l);
            },
            MimeAddresses::Group(gs) => {
                let n = gs.len();
                let mut i: usize = 0;
                while i < n
                    invariant
                        0 <= i <= n,
                        n == gs@.len(),
                        out.deep_view() =~= crate::mime::mime_group_list(
                            gs@.subrange(0, i as int),
                        ),
                    decreases n - i,
                {
                    let ghost pre = gs@.subrange(0, i as int);
                    let ghost out0 = out.deep_view();
                    let mut part = mime_addrs_vec(&gs[i].addresses);
                    let ghost partv = part.deep_view();
                    out.append(&mut part);
                    i = i + 1;
                    proof {
                        let p = gs@.subrange(0, i as int);
                        assert(p.drop_last() =~= pre);
                        assert(out.deep_view() =~= out0 + partv);
                        assert(out.deep_view() =~= crate::mime::mime_group_list(p));
                    }
                }
                proof {
                    assert(gs@.subrange(0, n as int) =~= gs@);
                }
            },
        }
        let r = EmailAddressList(out);
        proof {
            assert(r@ =~= mime_addresses_spec(*a));
        }
        r
    }

    /// Hands the flattened addresses out, in order.
    pub fn into_vec(self) -> (r: Vec<EmailAddress>)
        ensures
            r.deep_view() == self@,
    {
        self.0
    }
}

} // verus!
