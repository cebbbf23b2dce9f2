//! The canonical person record and its relationship graph.
//!
//! Relationship edges hold shared, reference-counted, read-only pointers to
//! other person records: a person may be reachable from many other persons'
//! edge lists at once, and records never change after construction, so
//! sharing is safe by construction.

use vstd::prelude::*;
use vstd::string::StringExecFns;

use std::rc::Rc;

use crate::age::Age;
use crate::email_address::EmailAddress;
use crate::person_name::PersonName;
use crate::phone_number::PhoneNumber;
use crate::traits::ThingLike;
use crate::Name;

verus! {

/// A reference to an event record by stable identifier.
#[derive(Clone, Debug, Default, Eq, Hash, PartialEq, PartialOrd, Ord)]
pub struct EventRef(pub String);

/// A shared, read-only reference to another person record.
#[derive(Clone, Debug, Default, Eq, Hash, PartialEq, PartialOrd, Ord)]
pub struct PersonRef(pub Rc<Person>);

/// Relies on `Rc::clone`: the clone shares the same allocation, so it holds
/// the same record.
#[verifier::external_body]
fn rc_clone_person(rc: &Rc<Person>) -> (r: Rc<Person>)
    ensures
        r == *rc,
{
    Rc::clone(rc)
}

/// Relies on `Rc`'s `as_ref`: the borrow sees the shared record itself.
#[verifier::external_body]
fn rc_person(rc: &Rc<Person>) -> (r: &Person)
    ensures
        *r == **rc,
{
    rc.as_ref()
}

/// Behaviour of a person record, shared with other person-like sources.
pub trait PersonLike: ThingLike {
    fn nickname(&self) -> Option<&PersonName>;

    fn nicknames(&self) -> &Vec<PersonName>;

    fn age(&self) -> Option<Age>;

    fn birth(&self) -> Option<&EventRef>;

    fn death(&self) -> Option<&EventRef>;

    fn parents(&self) -> Vec<PersonRef>;

    fn father(&self) -> Option<&PersonRef>;

    fn mother(&self) -> Option<&PersonRef>;

    fn siblings(&self) -> &Vec<PersonRef>;

    fn spouse(&self) -> Option<&PersonRef>;

    fn spouses(&self) -> &Vec<PersonRef>;

    fn partner(&self) -> Option<&PersonRef>;

    fn partners(&self) -> &Vec<PersonRef>;

    fn children(&self) -> &Vec<PersonRef>;

    fn colleagues(&self) -> &Vec<PersonRef>;

    fn knows(&self) -> &Vec<PersonRef>;

    fn email(&self) -> Option<&EmailAddress>;

    fn emails(&self) -> &Vec<EmailAddress>;

    fn phone(&self) -> Option<&PhoneNumber>;

    fn phones(&self) -> &Vec<PhoneNumber>;

    fn account(&self) -> Option<&String>;

    fn accounts(&self) -> &Vec<String>;

    fn link(&self) -> Option<&String>;

    fn links(&self) -> &Vec<String>;
}

/// The canonical person: identity, aliases, vital fields, relationship
/// edges, and contact channels. The first element of a repeated contact
/// field is its primary channel.
#[derive(Debug, Clone, Default, Eq, Hash, PartialEq, PartialOrd, Ord)]
pub struct Person {
    pub id: Option<String>,
    pub name: PersonName,
    pub nicknames: Vec<PersonName>,
    pub age: Option<Age>,
    pub birth: Option<EventRef>,
    pub death: Option<EventRef>,
    pub father: Option<PersonRef>,
    pub mother: Option<PersonRef>,
    pub siblings: Vec<PersonRef>,
    pub spouses: Vec<PersonRef>,
    pub partners: Vec<PersonRef>,
    pub children: Vec<PersonRef>,
    pub colleagues: Vec<PersonRef>,
    pub knows: Vec<PersonRef>,
    pub emails: Vec<EmailAddress>,
    pub phones: Vec<PhoneNumber>,
    pub accounts: Vec<String>,
    pub links: Vec<String>,
}

/// The parents of a record: the father, then the mother, each where present
/// — always in that order.
pub open spec fn parents_spec(p: Person) -> Seq<PersonRef> {
    (match p.father {
        Option::Some(f) => seq![f],
        Option::None => Seq::empty(),
    }) + (match p.mother {
        Option::Some(m) => seq![m],
        Option::None => Seq::empty(),
    })
}

impl Person {
    /// A person known only by name.
    pub fn parse(input: &str) -> (r: Person)
        ensures
            r.name@ == input@,
            r.id is None,
            r.nicknames@.len() == 0,
            r.age is None,
            r.birth is None,
            r.death is None,
            r.father is None,
            r.mother is None,
            r.siblings@.len() == 0,
            r.spouses@.len() == 0,
            r.partners@.len() == 0,
            r.children@.len() == 0,
            r.colleagues@.len() == 0,
            r.knows@.len() == 0,
            r.emails@.len() == 0,
            r.phones@.len() == 0,
            r.accounts@.len() == 0,
            r.links@.len() == 0,
    {
        Person {
            id: Option::None,
            name: PersonName::new(String::from_str(input)),
            nicknames: Vec::new(),
            age: Option::None,
            birth: Option::None,
            death: Option::None,
            father: Option::None,
            mother: Option::None,
            siblings: Vec::new(),
            spouses: Vec::new(),
            partners: Vec::new(),
            children: Vec::new(),
            colleagues: Vec::new(),
            knows: Vec::new(),
            emails: Vec::new(),
            phones: Vec::new(),
            accounts: Vec::new(),
            links: Vec::new(),
        }
    }

    /// The first alias, where one exists.
    pub fn nickname(&self) -> (r: Option<&PersonName>)
        ensures
            match r {
                Option::Some(n) => self.nicknames@.len() > 0 && *n == self.nicknames@[0],
                Option::None => self.nicknames@.len() == 0,
            },
    {
        if self.nicknames.len() > 0 {
            Option::Some(&self.nicknames[0])
        } else {
            Option::None
        }
    }

    /// All aliases, in order.
    pub fn nicknames(&self) -> (r: &Vec<PersonName>)
        ensures
            r == &self.nicknames,
    {
        &self.nicknames
    }

    /// The recorded age, where one exists.
    pub fn age(&self) -> (r: Option<Age>)
        ensures
            r == self.age,
    {
        match &self.age {
            Option::Some(a) => Option::Some(*a),
            Option::None => Option::None,
        }
    }

    /// The birth event reference, where one exists.
    pub fn birth(&self) -> (r: Option<&EventRef>)
        ensures
            match r {
                Option::Some(e) => self.birth == Option::Some(*e),
                Option::None => self.birth is None,
            },
    {
        match &self.birth {
            Option::Some(e) => Option::Some(e),
            Option::None => Option::None,
        }
    }

    /// The death event reference, where one exists.
    pub fn death(&self) -> (r: Option<&EventRef>)
        ensures
            match r {
                Option::Some(e) => self.death == Option::Some(*e),
                Option::None => self.death is None,
            },
    {
        match &self.death {
            Option::Some(e) => Option::Some(e),
            Option::None => Option::None,
        }
    }

    /// The father edge, where one exists.
    pub fn father(&self) -> (r: Option<&PersonRef>)
        ensures
            match r {
                Option::Some(p) => self.father == Option::Some(*p),
                Option::None => self.father is None,
            },
    {
        match &self.father {
            Option::Some(p) => Option::Some(p),
            Option::None => Option::None,
        }
    }

    /// The mother edge, where one exists.
    pub fn mother(&self) -> (r: Option<&PersonRef>)
        ensures
            match r {
                Option::Some(p) => self.mother == Option::Some(*p),
                Option::None => self.mother is None,
            },
    {
        match &self.mother {
            Option::Some(p) => Option::Some(p),
            Option::None => Option::None,
        }
    }

    /// The parents: the father, then the mother, each where present. The
    /// order is deterministic — father before mother, never the reverse,
    /// regardless of which was set first.
    pub fn parents(&self) -> (r: Vec<PersonRef>)
        ensures
            r@ == parents_spec(*self),
            self.father matches Option::Some(f) ==> (self.mother matches Option::Some(m) ==> r@
                =~= seq![f, m]),
    {
        let mut r: Vec<PersonRef> = Vec::new();
        match &self.father {
            Option::Some(f) => {
                r.push(PersonRef(rc_clone_person(&f.0)));
            },
            Option::None => {},
        }
        match &self.mother {
            Option::Some(m) => {
                r.push(PersonRef(rc_clone_person(&m.0)));
            },
            Option::None => {},
        }
        proof {
            assert(r@ =~= parents_spec(*self));
            match (&self.father, &self.mother) {
                (Option::Some(f), Option::Some(m)) => {
                    assert(r@ =~= seq![*f, *m]);
                },
                _ => {},
            }
        }
        r
    }

    /// The sibling edges, in order.
    pub fn siblings(&self) -> (r: &Vec<PersonRef>)
        ensures
            r == &self.siblings,
    {
        &self.siblings
    }

    /// The first spouse edge, where one exists.
    pub fn spouse(&self) -> (r: Option<&PersonRef>)
        ensures
            match r {
                Option::Some(p) => self.spouses@.len() > 0 && *p == self.spouses@[0],
                Option::None => self.spouses@.len() == 0,
            },
    {
        if self.spouses.len() > 0 {
            Option::Some(&self.spouses[0])
        } else {
            Option::None
        }
    }

    /// The spouse edges, in order.
    pub fn spouses(&self) -> (r: &Vec<PersonRef>)
        ensures
            r == &self.spouses,
    {
        &self.spouses
    }

    /// The first partner edge, where one exists.
    pub fn partner(&self) -> (r: Option<&PersonRef>)
        ensures
            match r {
                Option::Some(p) => self.partners@.len() > 0 && *p == self.partners@[0],
                Option::None => self.partners@.len() == 0,
            },
    {
        if self.partners.len() > 0 {
            Option::Some(&self.partners[0])
        } else {
            Option::None
        }
    }

    /// The partner edges, in order.
    pub fn partners(&self) -> (r: &Vec<PersonRef>)
        ensures
            r == &self.partners,
    {
        &self.partners
    }

    /// The child edges, in order.
    pub fn children(&self) -> (r: &Vec<PersonRef>)
        ensures
            r == &self.children,
    {
        &self.children
    }

    /// The colleague edges, in order.
    pub fn colleagues(&self) -> (r: &Vec<PersonRef>)
        ensures
            r == &self.colleagues,
    {
        &self.colleagues
    }

    /// The acquaintance edges, in order.
    pub fn knows(&self) -> (r: &Vec<PersonRef>)
        ensures
            r == &self.knows,
    {
        &self.knows
    }

    /// The primary address: the first element, where one exists.
    pub fn email(&self) -> (r: Option<&EmailAddress>)
        ensures
            match r {
                Option::Some(a) => self.emails@.len() > 0 && *a == self.emails@[0],
                Option::None => self.emails@.len() == 0,
            },
    {
        if self.emails.len() > 0 {
            Option::Some(&self.emails[0])
        } else {
            Option::None
        }
    }

    /// All addresses, in order.
    pub fn emails(&self) -> (r: &Vec<EmailAddress>)
        ensures
            r == &self.emails,
    {
        &self.emails
    }

    /// The primary number: the first element, where one exists.
    pub fn phone(&self) -> (r: Option<&PhoneNumber>)
        ensures
            match r {
                Option::Some(p) => self.phones@.len() > 0 && *p == self.phones@[0],
                Option::None => self.phones@.len() == 0,
            },
    {
        if self.phones.len() > 0 {
            Option::Some(&self.phones[0])
        } else {
            Option::None
        }
    }

    /// All numbers, in order.
    pub fn phones(&self) -> (r: &Vec<PhoneNumber>)
        ensures
            r == &self.phones,
    {
        &self.phones
    }

    /// The primary account, where one exists.
    pub fn account(&self) -> (r: Option<&String>)
        ensures
            match r {
                Option::Some(a) => self.accounts@.len() > 0 && *a == self.accounts@[0],
                Option::None => self.accounts@.len() == 0,
            },
    {
        if self.accounts.len() > 0 {
            Option::Some(&self.accounts[0])
        } else {
            Option::None
        }
    }

    /// All accounts, in order.
    pub fn accounts(&self) -> (r: &Vec<String>)
        ensures
            r == &self.accounts,
    {
        &self.accounts
    }

    /// The primary link, where one exists.
    pub fn link(&self) -> (r: Option<&String>)
        ensures
            match r {
                Option::Some(l) => self.links@.len() > 0 && *l == self.links@[0],
                Option::None => self.links@.len() == 0,
            },
    {
        if self.links.len() > 0 {
            Option::Some(&self.links[0])
        } else {
            Option::None
        }
    }

    /// All links, in order.
    pub fn links(&self) -> (r: &Vec<String>)
        ensures
            r == &self.links,
    {
        &self.links
    }

    /// The record's identifier text, where it has one.
    pub fn id_str(&self) -> (r: Option<&str>)
        ensures
            match r {
                Option::Some(s) => self.id matches Option::Some(t) && s@ == t@,
                Option::None => self.id is None,
            },
    {
        match &self.id {
            Option::Some(s) => Option::Some(s.as_str()),
            Option::None => Option::None,
        }
    }

    /// The English summary of the record.
    pub fn what(&self) -> (r: String)
        ensures
            r@ == "A person named "@ + self.name@,
    {
        let mut out = String::from_str("A person named ");
        out.append(self.name.as_str());
        out
    }
}

impl ThingLike for Person {
    fn id(&self) -> Option<&str> {
        self.id_str()
    }

    fn name(&self) -> Option<&Name> {
        Option::Some(self.name.as_string())
    }
}

impl PersonLike for Person {
    fn nickname(&self) -> Option<&PersonName> {
        Person::nickname(self)
    }

    fn nicknames(&self) -> &Vec<PersonName> {
        Person::nicknames(self)
    }

    fn age(&self) -> Option<Age> {
        Person::age(self)
    }

    fn birth(&self) -> Option<&EventRef> {
        Person::birth(self)
    }

    fn death(&self) -> Option<&EventRef> {
        Person::death(self)
    }

    fn parents(&self) -> Vec<PersonRef> {
        Person::parents(self)
    }

    fn father(&self) -> Option<&PersonRef> {
        Person::father(self)
    }

    fn mother(&self) -> Option<&PersonRef> {
        Person::mother(self)
    }

    fn siblings(&self) -> &Vec<PersonRef> {
        Person::siblings(self)
    }

    fn spouse(&self) -> Option<&PersonRef> {
        Person::spouse(self)
    }

    fn spouses(&self) -> &Vec<PersonRef> {
        Person::spouses(self)
    }

    fn partner(&self) -> Option<&PersonRef> {
        Person::partner(self)
    }

    fn partners(&self) -> &Vec<PersonRef> {
        Person::partners(self)
    }

    fn children(&self) -> &Vec<PersonRef> {
        Person::children(self)
    }

    fn colleagues(&self) -> &Vec<PersonRef> {
        Person::colleagues(self)
    }

    fn knows(&self) -> &Vec<PersonRef> {
        Person::knows(self)
    }

    fn email(&self) -> Option<&EmailAddress> {
        Person::email(self)
    }

    fn emails(&self) -> &Vec<EmailAddress> {
        Person::emails(self)
    }

    fn phone(&self) -> Option<&PhoneNumber> {
        Person::phone(self)
    }

    fn phones(&self) -> &Vec<PhoneNumber> {
        Person::phones(self)
    }

    fn account(&self) -> Option<&String> {
        Person::account(self)
    }

    fn accounts(&self) -> &Vec<String> {
        Person::accounts(self)
    }

    fn link(&self) -> Option<&String> {
        Person::link(self)
    }

    fn links(&self) -> &Vec<String> {
        Person::links(self)
    }
}

impl PersonRef {
    /// A reference to a person known only by name.
    pub fn parse(input: &str) -> (r: PersonRef)
        ensures
            r.0.name@ == input@,
    {
        PersonRef(Rc::new(Person::parse(input)))
    }

    /// The referenced record's identifier text, where it has one.
    pub fn id_str(&self) -> (r: Option<&str>)
        ensures
            match r {
                Option::Some(s) => self.0.id matches Option::Some(t) && s@ == t@,
                Option::None => self.0.id is None,
            },
    {
        rc_person(&self.0).id_str()
    }
}

/// The one-line rendering of a person reference: the name, then the primary
/// address in angle brackets where one exists, then the identifier after a
/// hash mark where one exists.
pub open spec fn person_ref_display_spec(p: Person) -> Seq<char> {
    p.name@ + (if p.emails.deep_view().len() > 0 {
        " <"@ + p.emails.deep_view()[0] + ">"@
    } else {
        Seq::empty()
    }) + (match p.id {
        Option::Some(id) => " (#"@ + id@ + ")"@,
        Option::None => Seq::empty(),
    })
}

impl PersonRef {
    /// Renders the reference to its one-line string form.
    pub fn to_string(&self) -> (r: String)
        ensures
            r@ == person_ref_display_spec(*self.0),
    {
        let p = rc_person(&self.0);
        let mut out = String::from_str(p.name.as_str());
        if p.emails.len() > 0 {
            out.append(" <");
            out.append(p.emails[0].as_str());
            out.append(">");
        }
        match &p.id {
            Option::Some(id) => {
                out.append(" (#");
                out.append(id.as_str());
                out.append(")");
            },
            Option::None => {},
        }
        proof {
            assert(out@ =~= person_ref_display_spec(*self.0));
        }
        out
    }
}

impl ThingLike for PersonRef {
    fn id(&self) -> Option<&str> {
        self.id_str()
    }

    fn name(&self) -> Option<&Name> {
        Option::Some(rc_person(&self.0).name.as_string())
    }
}

} // verus!
