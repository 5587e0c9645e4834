//! Sessions and the user identifiers they are issued for.

use vstd::prelude::*;
use vstd::string::StrSliceExecFns;

verus! {

/// The first index at or after `i` where `s` holds `:`, or `-1` if there
/// is none.
pub open spec fn find_colon(s: Seq<char>, i: int) -> int
    decreases s.len() - i when i <= s.len()
{
    if i >= s.len() {
        -1
    } else if s[i] == ':' {
        i
    } else {
        find_colon(s, i + 1)
    }
}

/// Whether `s` is a well-formed user identifier: a `@`, a non-empty local
/// part free of `:`, a `:`, and a non-empty server name.
pub open spec fn spec_user_id_valid(s: Seq<char>) -> bool {
    s.len() >= 1 && s[0] == '@' && {
        let j = find_colon(s, 1);
        2 <= j && j + 1 < s.len()
    }
}

/// The mathematical value of a [`UserId`].
pub ghost struct UserIdModel {
    /// The part before the first `:`, without the leading `@`.
    pub localpart: Seq<char>,
    /// The part after the first `:`.
    pub server_name: Seq<char>,
}

/// The user identifier a well-formed string denotes.
pub open spec fn spec_user_id_of(s: Seq<char>) -> UserIdModel
    recommends
        spec_user_id_valid(s),
{
    let j = find_colon(s, 1);
    UserIdModel { localpart: s.subrange(1, j), server_name: s.subrange(j + 1, s.len() as int) }
}

/// How a structured identifier is written: `@localpart:server_name`.
pub open spec fn spec_matrix_id(u: UserIdModel) -> Seq<char> {
    "@"@ + u.localpart + ":"@ + u.server_name
}

/// Skipping characters that are not `:` does not change where the first
/// `:` is found.
proof fn lemma_find_colon_skip(s: Seq<char>, a: int, b: int)
    requires
        0 <= a <= b <= s.len(),
        forall|i: int| a <= i < b ==> s[i] != ':',
    ensures
        find_colon(s, a) == find_colon(s, b),
    decreases b - a,
{
    if a < b {
        assert(s[a] != ':');
        assert(find_colon(s, a) == find_colon(s, a + 1));
        lemma_find_colon_skip(s, a + 1, b);
    }
}

/// Writing an identifier and parsing it back yields the identifier:
/// `@localpart:server_name` is well-formed and splits into exactly the
/// same parts, provided the local part is non-empty and free of `:` and
/// the server name is non-empty.
pub proof fn lemma_user_id_round_trip(u: UserIdModel)
    requires
        u.localpart.len() >= 1,
        forall|i: int| 0 <= i < u.localpart.len() ==> u.localpart[i] != ':',
        u.server_name.len() >= 1,
    ensures
        spec_user_id_valid(spec_matrix_id(u)),
        spec_user_id_of(spec_matrix_id(u)) == u,
{
    reveal_strlit("@");
    reveal_strlit(":");
    assert("@"@.len() == 1);
    assert(":"@.len() == 1);
    let s = spec_matrix_id(u);
    let l = u.localpart.len() as int;
    assert(s.len() == l + u.server_name.len() + 2);
    assert(s[0] == '@');
    assert(s[l + 1] == ':');
    assert(forall|i: int| 1 <= i < l + 1 ==> s[i] == u.localpart[i - 1]);
    lemma_find_colon_skip(s, 1, l + 1);
    assert(find_colon(s, l + 1) == l + 1);
    assert(s.subrange(1, l + 1) =~= u.localpart);
    assert(s.subrange(l + 2, s.len() as int) =~= u.server_name);
}

/// A structured user identifier: the local part and the homeserver name
/// of an identifier written `@localpart:server_name`.
#[derive(Clone, Debug, PartialEq, Eq, Hash)]
pub struct UserId {
    /// The part between the leading `@` and the first `:`.
    pub localpart: String,
    /// The part after the first `:`.
    pub server_name: String,
}

impl View for UserId {
    type V = UserIdModel;

    open spec fn view(&self) -> UserIdModel {
        UserIdModel { localpart: self.localpart@, server_name: self.server_name@ }
    }
}

impl UserId {
    /// Parses `@localpart:server_name`, splitting at the first `:`.
    /// Returns `None` exactly on the strings that are not well-formed
    /// user identifiers.
    pub fn parse(s: &str) -> (r: Option<UserId>)
        ensures
            r matches Some(u) ==> spec_user_id_valid(s@) && u@ == spec_user_id_of(s@),
            r is None ==> !spec_user_id_valid(s@),
    {
        let len = s.unicode_len();
        if len == 0 {
            return None;
        }
        if s.get_char(0) != '@' {
            return None;
        }
        let mut i: usize = 1;
        while i < len
            invariant
                1 <= i <= len,
                len == s@.len(),
                s@[0] == '@',
                find_colon(s@, 1) == find_colon(s@, i as int),
            decreases len - i,
        {
            if s.get_char(i) == ':' {
                assert(find_colon(s@, i as int) == i);
                if i < 2 || i + 1 >= len {
                    return None;
                }
                let localpart = s.substring_char(1, i).to_owned();
                let server_name = s.substring_char(i + 1, len).to_owned();
                return Some(UserId { localpart, server_name });
            }
            assert(find_colon(s@, i as int) == find_colon(s@, i as int + 1));
            i = i + 1;
        }
        assert(find_colon(s@, len as int) == -1);
        None
    }

    /// Writes this identifier back as `@localpart:server_name`.
    pub fn to_matrix_id(&self) -> (r: String)
        ensures
            r@ == spec_matrix_id(self@),
    {
        let s = String::from_str("@").concat(self.localpart.as_str());
        s.concat(":").concat(self.server_name.as_str())
    }
}

/// A user session: the access token an auth flow acquired, bound to the
/// user and device it was issued for. Replaced wholesale by the next
/// successful auth flow and never mutated in place.
#[derive(Clone, Debug, PartialEq, Eq, Hash)]
pub struct Session {
    /// The access token used for this session.
    pub access_token: String,
    /// The user the access token was issued for.
    pub user_id: UserId,
    /// The ID of the client device.
    pub device_id: String,
}

/// The mathematical value of a [`Session`].
pub ghost struct SessionModel {
    /// The access token.
    pub access_token: Seq<char>,
    /// The user the token was issued for.
    pub user_id: UserIdModel,
    /// The device the token was issued for.
    pub device_id: Seq<char>,
}

impl View for Session {
    type V = SessionModel;

    open spec fn view(&self) -> SessionModel {
        SessionModel {
            access_token: self.access_token@,
            user_id: self.user_id@,
            device_id: self.device_id@,
        }
    }
}

} // verus!
