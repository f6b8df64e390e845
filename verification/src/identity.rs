use vstd::prelude::*;

verus! {

/// The decimal digit character for `d` (which is below ten).
pub open spec fn digit_char(d: nat) -> char {
    if d == 0 { '0' }
    else if d == 1 { '1' }
    else if d == 2 { '2' }
    else if d == 3 { '3' }
    else if d == 4 { '4' }
    else if d == 5 { '5' }
    else if d == 6 { '6' }
    else if d == 7 { '7' }
    else if d == 8 { '8' }
    else { '9' }
}

/// The decimal representation of `n`, without sign or leading zeros.
pub open spec fn decimal(n: nat) -> Seq<char>
    decreases n,
{
    if n < 10 {
        seq![digit_char(n)]
    } else {
        decimal(n / 10).push(digit_char(n % 10))
    }
}

fn digit_text(d: u64) -> (s: &'static str)
    requires
        d < 10,
    ensures
        s@ == seq![digit_char(d as nat)],
{
    proof {
        reveal_strlit("0");
        reveal_strlit("1");
        reveal_strlit("2");
        reveal_strlit("3");
        reveal_strlit("4");
        reveal_strlit("5");
        reveal_strlit("6");
        reveal_strlit("7");
        reveal_strlit("8");
        reveal_strlit("9");
    }
    if d == 0 { "0" }
    else if d == 1 { "1" }
    else if d == 2 { "2" }
    else if d == 3 { "3" }
    else if d == 4 { "4" }
    else if d == 5 { "5" }
    else if d == 6 { "6" }
    else if d == 7 { "7" }
    else if d == 8 { "8" }
    else { "9" }
}

/// Renders `n` in decimal.
pub fn decimal_text(n: u64) -> (s: String)
    ensures
        s@ == decimal(n as nat),
    decreases n,
{
    if n < 10 {
        String::from_str(digit_text(n))
    } else {
        let mut s = decimal_text(n / 10);
        s.append(digit_text(n % 10));
        s
    }
}

/// Identifies one spawned actor: a process-unique number and the actor's
/// type name.
#[derive(Debug, Clone, Copy, PartialEq, Eq, Hash)]
pub struct Identity {
    /// Unique ID of the actor
    pub id: u64,
    /// Type name of the actor
    pub actor_type: &'static str,
}

/// How an identity is rendered: `TypeName(#id)`.
pub open spec fn identity_text(i: Identity) -> Seq<char> {
    i.actor_type@ + seq!['(', '#'] + decimal(i.id as nat) + seq![')']
}

impl Identity {
    /// Creates a new `Identity` with the given ID and type name.
    pub fn new(id: u64, actor_type: &'static str) -> (r: Self)
        ensures
            r.id == id,
            r.actor_type == actor_type,
    {
        Identity { id, actor_type }
    }

    /// Returns the type name of the actor.
    pub fn name(&self) -> (r: &'static str)
        ensures
            r == self.actor_type,
    {
        self.actor_type
    }

    /// Renders the identity as `TypeName(#id)`.
    pub fn to_string(&self) -> (s: String)
        ensures
            s@ == identity_text(*self),
    {
        let mut s = String::from_str(self.actor_type);
        s.append("(#");
        let digits = decimal_text(self.id);
        s.append(digits.as_str());
        s.append(")");
        proof {
            reveal_strlit("(#");
            reveal_strlit(")");
        }
        s
    }
}

} // verus!
