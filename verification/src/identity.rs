use crate::text::same_text;
use vstd::prelude::*;

verus! {

/// An actor on the delivery platform that posts in one channel under the
/// original author's name and avatar.
#[derive(Debug, Clone, PartialEq, Eq)]
pub struct RelayIdentity {
    /// The platform's id of the actor.
    pub id: u64,
    /// The name it is shown under, if it has one.
    pub name: Option<String>,
}

/// A [`RelayIdentity`] as plain text.
pub struct RelayIdentityView {
    pub id: u64,
    pub name: Option<Seq<char>>,
}

impl View for RelayIdentity {
    type V = RelayIdentityView;

    open spec fn view(&self) -> RelayIdentityView {
        RelayIdentityView {
            id: self.id,
            name: match self.name {
                Some(name) => Some(name@),
                None => None,
            },
        }
    }
}

/// The identities of a list as plain text.
pub open spec fn identities_view(identities: Seq<RelayIdentity>) -> Seq<RelayIdentityView> {
    Seq::new(identities.len(), |i: int| identities[i]@)
}

/// The name every relay identity of this bridge is shown under.
pub open spec fn relay_name_spec() -> Seq<char> {
    "carmine"@
}

/// The name every relay identity of this bridge is shown under.
pub fn relay_name() -> (name: &'static str)
    ensures
        name@ == relay_name_spec(),
{
    "carmine"
}

/// The id of the first identity of the list that goes by `name`.
pub open spec fn first_named(identities: Seq<RelayIdentityView>, name: Seq<char>) -> Option<u64>
    decreases identities.len(),
{
    if identities.len() == 0 {
        None
    } else if identities[0].name == Some(name) {
        Some(identities[0].id)
    } else {
        first_named(identities.drop_first(), name)
    }
}

/// How a channel comes by its relay identity.
#[derive(Debug, Clone, Copy, PartialEq, Eq)]
pub enum IdentityChoice {
    /// The channel has one: use the identity with this id.
    Reuse(u64),
    /// The channel has none: one must be created.
    Create,
}

/// What the identities found on a channel call for.
pub open spec fn identity_choice(identities: Seq<RelayIdentityView>) -> IdentityChoice {
    match first_named(identities, relay_name_spec()) {
        Some(id) => IdentityChoice::Reuse(id),
        None => IdentityChoice::Create,
    }
}

/// Picks the relay identity among those that a channel has: the first that
/// goes by the relay name. Where none does, one is to be created.
pub fn get_or_create_webhook(identities: &Vec<RelayIdentity>) -> (choice: IdentityChoice)
    ensures
        choice == identity_choice(identities_view(identities@)),
{
    let ghost all = identities_view(identities@);
    let mut i: usize = 0;
    assert(all.skip(0) == all);
    while i < identities.len()
        invariant
            i <= identities.len(),
            all == identities_view(identities@),
            first_named(all, relay_name_spec()) == first_named(
                all.skip(i as int),
                relay_name_spec(),
            ),
        decreases identities.len() - i,
    {
        let identity = &identities[i];
        assert(all.skip(i as int)[0] == identity@);
        assert(all.skip(i as int).drop_first() == all.skip(i + 1));
        if let Some(name) = &identity.name {
            if same_text(name.as_str(), relay_name()) {
                return IdentityChoice::Reuse(identity.id);
            }
        }
        i += 1;
    }
    IdentityChoice::Create
}

/// Once a channel has a relay identity, no second one is asked for: after
/// an identity with the relay name joins the list, whatever the list held,
/// the choice is to reuse one.
pub proof fn law_creation_is_not_repeated(identities: Seq<RelayIdentityView>, created: u64)
    ensures
        identity_choice(
            identities.push(RelayIdentityView { id: created, name: Some(relay_name_spec()) }),
        ) is Reuse,
    decreases identities.len(),
{
    let made = RelayIdentityView { id: created, name: Some(relay_name_spec()) };
    let after = identities.push(made);
    if identities.len() == 0 {
        assert(after[0] == made);
    } else {
        assert(after[0] == identities[0]);
        assert(after.drop_first() == identities.drop_first().push(made));
        law_creation_is_not_repeated(identities.drop_first(), created);
    }
}

/// An identity that is reused was on the list under the relay name, and an
/// identity is created only where the list holds none under that name.
pub proof fn law_choice_is_sound(identities: Seq<RelayIdentityView>)
    ensures
        match identity_choice(identities) {
            IdentityChoice::Reuse(id) => exists|i: int|
                0 <= i < identities.len() && #[trigger] identities[i].name == Some(
                    relay_name_spec(),
                ) && identities[i].id == id,
            IdentityChoice::Create => forall|i: int|
                0 <= i < identities.len() ==> #[trigger] identities[i].name != Some(
                    relay_name_spec(),
                ),
        },
    decreases identities.len(),
{
    if identities.len() > 0 {
        let rest = identities.drop_first();
        law_choice_is_sound(rest);
        if identities[0].name == Some(relay_name_spec()) {
            assert(identities[0].id == first_named(identities, relay_name_spec())->Some_0);
        } else {
            match identity_choice(rest) {
                IdentityChoice::Reuse(id) => {
                    let i = choose|i: int|
                        0 <= i < rest.len() && #[trigger] rest[i].name == Some(relay_name_spec())
                            && rest[i].id == id;
                    assert(identities[i + 1] == rest[i]);
                },
                IdentityChoice::Create => {
                    assert forall|i: int| 0 <= i < identities.len() implies #[trigger] identities[i].name
                        != Some(relay_name_spec()) by {
                        if i > 0 {
                            assert(identities[i] == rest[i - 1]);
                        }
                    }
                },
            }
        }
    }
}

} // verus!
