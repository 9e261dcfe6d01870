//! Who is on the field: one player and a horde of agents, each agent drawn at
//! random as one of two kinds.

use rand::rngs::StdRng;
use rand::seq::SliceRandom;
use vstd::prelude::*;

verus! {

/// `rand::rngs::StdRng`, a generator that draws from its own state alone: once
/// seeded it reads nothing from the system. Nothing is known of its state.
#[verifier::external_type_specification]
#[verifier::external_body]
pub struct ExStdRng(rand::rngs::StdRng);

/// Number of agents that take the field beside the player.
pub const AGENT_COUNT: usize = 1000;

/// True of the texture file names that an agent can be given: the orc's and
/// the knight's.
pub open spec fn is_agent_texture(name: Seq<char>) -> bool {
    name == "orc.png"@ || name == "knight.png"@
}

/// The texture file of the player's sprite.
pub fn player_texture() -> (name: &'static str)
    ensures
        name@ == "mage.png"@,
{
    "mage.png"
}

/// The texture files of the two kinds of agent, the orc first.
pub fn agent_textures() -> (names: [&'static str; 2])
    ensures
        names@.len() == 2,
        names@[0]@ == "orc.png"@,
        names@[1]@ == "knight.png"@,
{
    ["orc.png", "knight.png"]
}

/// Calls `rand::seq::SliceRandom::choose` on a slice of names.
///
/// Trusted, not proved: `choose` returns `None` exactly when the slice is
/// empty, and otherwise one of the slice's elements. Which element it returns
/// depends on the generator, and nothing is claimed of that. The generator is
/// a `StdRng` because a draw from it cannot fail: it has no reseeding step.
#[verifier::external_body]
fn choose_name(names: &[&'static str], rng: &mut StdRng) -> (picked: Option<&'static str>)
    ensures
        picked is None <==> names@.len() == 0,
        picked matches Some(name) ==> exists|i: int|
            0 <= i < names@.len() && #[trigger] names@[i]@ == name@,
{
    names.choose(rng).copied()
}

/// Draws the texture of one agent: the orc's or the knight's, as the
/// generator decides.
pub fn pick_agent_texture(rng: &mut StdRng) -> (name: &'static str)
    ensures
        is_agent_texture(name@),
{
    let names = agent_textures();
    let picked = choose_name(names.as_slice(), rng);
    picked.unwrap()
}

/// Draws the textures of a horde of `count` agents, in the order in which the
/// agents take the field.
pub fn agent_roster(rng: &mut StdRng, count: usize) -> (roster: Vec<&'static str>)
    ensures
        roster@.len() == count,
        forall|i: int| 0 <= i < count ==> is_agent_texture(#[trigger] roster@[i]@),
{
    let mut roster: Vec<&'static str> = Vec::new();
    let mut drawn: usize = 0;
    while drawn < count
        invariant
            drawn <= count,
            roster@.len() == drawn,
            forall|i: int| 0 <= i < drawn ==> is_agent_texture(#[trigger] roster@[i]@),
        decreases count - drawn,
    {
        let name = pick_agent_texture(rng);
        roster.push(name);
        drawn = drawn + 1;
    }
    roster
}

} // verus!
