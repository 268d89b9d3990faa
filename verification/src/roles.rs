//! The secret roles and how many of each a table gets.

use crate::cards::shuffle;
use vstd::multiset::*;
use vstd::prelude::*;
use vstd::seq_lib::*;

verus! {

/// The secret role of a player.
#[derive(Clone, Copy, Debug, PartialEq, Eq, Structural)]
pub enum PlayerType {
    Liberal,
    Facist,
    Hitler,
}

/// Fewest players a game can start with.
pub const MIN_PLAYERS: usize = 5;

/// Most players a game can start with.
pub const MAX_PLAYERS: usize = 10;

/// Whether a game can be played at a table of `n`.
pub open spec fn is_table_size(n: nat) -> bool {
    MIN_PLAYERS <= n <= MAX_PLAYERS
}

/// The number of fascists beside Hitler at a table of `n`:
/// one for five or six players, two for seven or eight, three for nine or ten.
pub open spec fn facist_seats(n: nat) -> nat {
    if n <= 6 {
        1
    } else if n <= 8 {
        2
    } else {
        3
    }
}

/// How often `role` occurs in `roles`.
pub open spec fn role_count(roles: Seq<PlayerType>, role: PlayerType) -> nat {
    roles.to_multiset().count(role)
}

/// A legal assignment for a table of `n`: one role per seat, exactly one
/// Hitler and as many fascists as the table calls for. The other seats are
/// liberal (see `lemma_roles_cover`).
pub open spec fn is_role_assignment(roles: Seq<PlayerType>, n: nat) -> bool {
    &&& roles.len() == n
    &&& role_count(roles, PlayerType::Hitler) == 1
    &&& role_count(roles, PlayerType::Facist) == facist_seats(n)
}

/// No role occurs in an empty list.
pub proof fn lemma_role_count_empty(roles: Seq<PlayerType>, role: PlayerType)
    requires
        roles.len() == 0,
    ensures
        role_count(roles, role) == 0,
{
    broadcast use group_multiset_axioms, group_to_multiset_ensures;

}

/// Adding a seat raises the count of its role by one.
pub proof fn lemma_role_count_push(roles: Seq<PlayerType>, added: PlayerType, role: PlayerType)
    ensures
        role_count(roles.push(added), role) == role_count(roles, role) + if added == role {
            1nat
        } else {
            0nat
        },
{
    broadcast use group_multiset_axioms, group_to_multiset_ensures;

}

/// The three counts make up the table.
pub proof fn lemma_roles_cover(roles: Seq<PlayerType>)
    ensures
        role_count(roles, PlayerType::Liberal) + role_count(roles, PlayerType::Facist)
            + role_count(roles, PlayerType::Hitler) == roles.len(),
    decreases roles.len(),
{
    if roles.len() == 0 {
        lemma_role_count_empty(roles, PlayerType::Liberal);
        lemma_role_count_empty(roles, PlayerType::Facist);
        lemma_role_count_empty(roles, PlayerType::Hitler);
    } else {
        let rest = roles.drop_last();
        lemma_roles_cover(rest);
        assert(roles =~= rest.push(roles.last()));
        lemma_role_count_push(rest, roles.last(), PlayerType::Liberal);
        lemma_role_count_push(rest, roles.last(), PlayerType::Facist);
        lemma_role_count_push(rest, roles.last(), PlayerType::Hitler);
    }
}

/// The number of fascists beside Hitler at a table of `n`.
pub fn facist_seats_for(n: usize) -> (seats: usize)
    ensures
        seats == facist_seats(n as nat),
{
    if n <= 6 {
        1
    } else if n <= 8 {
        2
    } else {
        3
    }
}

/// Counts the seats that hold `role`.
pub fn count_role(roles: &Vec<PlayerType>, role: PlayerType) -> (n: usize)
    ensures
        n == role_count(roles@, role),
{
    let mut n: usize = 0;
    let mut i: usize = 0;
    proof {
        lemma_role_count_empty(roles@.subrange(0, 0), role);
    }
    while i < roles.len()
        invariant
            i <= roles.len(),
            n == role_count(roles@.subrange(0, i as int), role),
            n <= i,
        decreases roles.len() - i,
    {
        proof {
            assert(roles@.subrange(0, i + 1) =~= roles@.subrange(0, i as int).push(roles@[i as int]));
            lemma_role_count_push(roles@.subrange(0, i as int), roles@[i as int], role);
        }
        if roles[i] == role {
            n += 1;
        }
        i += 1;
    }
    proof {
        assert(roles@.subrange(0, i as int) =~= roles@);
    }
    n
}

/// Whether `roles` is a legal assignment for a table of `n`.
pub fn is_assignment(roles: &Vec<PlayerType>, n: usize) -> (ok: bool)
    ensures
        ok == is_role_assignment(roles@, n as nat),
{
    roles.len() == n && count_role(roles, PlayerType::Hitler) == 1 && count_role(
        roles,
        PlayerType::Facist,
    ) == facist_seats_for(n)
}

/// Deals the roles for a table of `n` in random order: the liberals, the
/// fascists and Hitler are laid out and then shuffled.
pub fn assign_roles(n: usize) -> (roles: Vec<PlayerType>)
    requires
        is_table_size(n as nat),
    ensures
        is_role_assignment(roles@, n as nat),
{
    let facists = facist_seats_for(n);
    let liberals = n - facists - 1;
    let mut roles: Vec<PlayerType> = Vec::new();
    proof {
        lemma_role_count_empty(roles@, PlayerType::Hitler);
        lemma_role_count_empty(roles@, PlayerType::Facist);
    }
    let mut i: usize = 0;
    while i < liberals
        invariant
            i <= liberals,
            roles@.len() == i,
            role_count(roles@, PlayerType::Hitler) == 0,
            role_count(roles@, PlayerType::Facist) == 0,
        decreases liberals - i,
    {
        proof {
            lemma_role_count_push(roles@, PlayerType::Liberal, PlayerType::Hitler);
            lemma_role_count_push(roles@, PlayerType::Liberal, PlayerType::Facist);
        }
        roles.push(PlayerType::Liberal);
        i += 1;
    }
    let mut j: usize = 0;
    while j < facists
        invariant
            j <= facists,
            roles@.len() == liberals + j,
            liberals + facists + 1 == n,
            role_count(roles@, PlayerType::Hitler) == 0,
            role_count(roles@, PlayerType::Facist) == j,
        decreases facists - j,
    {
        proof {
            lemma_role_count_push(roles@, PlayerType::Facist, PlayerType::Hitler);
            lemma_role_count_push(roles@, PlayerType::Facist, PlayerType::Facist);
        }
        roles.push(PlayerType::Facist);
        j += 1;
    }
    roles.push(PlayerType::Hitler);
    let ghost laid_out = roles@;
    shuffle(&mut roles);
    proof {
        broadcast use group_to_multiset_ensures;

        assert(laid_out.len() == laid_out.to_multiset().len());
    }
    roles
}

} // verus!
