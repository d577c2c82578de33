use vstd::prelude::*;
use vstd::string::*;

verus! {

/// A role of a guild: an identifier and a human-readable name.
pub struct Role {
    pub id: u64,
    pub name: String,
}

/// A guild (chat server): an identifier and its roles, in the
/// collection's native order.
pub struct Guild {
    pub id: u64,
    pub roles: Vec<Role>,
}

/// A user: identifier, display name, and the account-creation
/// timestamp already rendered as text.
pub struct User {
    pub id: u64,
    pub name: String,
    pub created_at: String,
}

/// Immutable process-wide configuration: the base URL of the remote
/// control API, without a trailing slash.
pub struct Config {
    pub api_url: String,
}

/// The fixed name of the role that gates the protected commands.
pub open spec fn mine_role_name() -> Seq<char> {
    "testing"@
}

/// Whether some role in `roles` carries exactly the name `name`.
pub open spec fn role_exists(roles: Seq<Role>, name: Seq<char>) -> bool {
    exists|i: int| 0 <= i < roles.len() && roles[i].name@ == name
}

/// `i` is the position of the first role in `roles` whose name equals
/// `name` exactly (case-sensitive, no normalization).
pub open spec fn is_first_match(roles: Seq<Role>, name: Seq<char>, i: int) -> bool {
    &&& 0 <= i < roles.len()
    &&& roles[i].name@ == name
    &&& forall|j: int| 0 <= j < i ==> roles[j].name@ != name
}

/// Character-for-character string equality.
pub fn str_eq(a: &str, b: &str) -> (r: bool)
    ensures
        r == (a@ == b@),
{
    let a_len = a.unicode_len();
    let b_len = b.unicode_len();
    if a_len != b_len {
        return false;
    }
    let mut i: usize = 0;
    while i < a_len
        invariant
            a_len == a@.len(),
            a@.len() == b@.len(),
            i <= a_len,
            forall|j: int| 0 <= j < i ==> a@[j] == b@[j],
        decreases a_len - i,
    {
        if a.get_char(i) != b.get_char(i) {
            assert(a@[i as int] != b@[i as int]);
            return false;
        }
        i += 1;
    }
    proof {
        assert(a@ =~= b@);
    }
    true
}

} // verus!
