//! An in-memory credential store: users are created with a salted,
//! iterated password hash and looked up by verifying a presented
//! password against the stored hash.
//!
//! The hashing itself is done by the pbkdf2 crate; its results are named
//! rather than restated ([`pbkdf2_hash`], [`pbkdf2_verifies`]), and the
//! store's own logic — uniqueness of usernames, what is recorded on
//! creation, when a lookup succeeds, what deletion removes — is proved
//! against those names.
use pbkdf2::password_hash::{PasswordHash, PasswordHasher, PasswordVerifier, SaltString};
use vstd::prelude::*;
use vstd::string::StringExecFns;

verus! {

/// How many iterations the password hash runs.
pub const HASH_ROUNDS: u32 = 10000;

/// The PHC string that pbkdf2 produces for this password, salt and
/// round count. It depends on those arguments alone.
pub uninterp spec fn pbkdf2_hash(password: Seq<char>, salt: Seq<char>, rounds: u32) -> Seq<char>;

/// Whether pbkdf2 accepts this password against this PHC string. It
/// depends on the two arguments alone.
pub uninterp spec fn pbkdf2_verifies(password: Seq<char>, phc: Seq<char>) -> bool;

/// Relies on `SaltString::generate` with the operating system's
/// randomness source; nothing is promised of the value.
#[verifier::external_body]
fn generate_salt() -> (r: String) {
    SaltString::generate(&mut pbkdf2::password_hash::rand_core::OsRng)
        .as_str()
        .to_owned()
}

/// Relies on `Pbkdf2::hash_password_customized`: for a fixed salt and
/// round count the PHC string it renders depends on the password alone,
/// and `verify_password` accepts the hashed password against it.
#[verifier::external_body]
fn hash_password(password: &str, salt: &str, rounds: u32) -> (r: Result<String, String>)
    ensures
        r is Ok ==> r->Ok_0@ == pbkdf2_hash(password@, salt@, rounds),
        r is Ok ==> pbkdf2_verifies(password@, r->Ok_0@),
{
    let salt = match SaltString::from_b64(salt) {
        Ok(s) => s,
        Err(e) => return Err(format!("{e:?}")),
    };
    let params = pbkdf2::Params { rounds, ..Default::default() };
    match pbkdf2::Pbkdf2.hash_password_customized(password.as_bytes(), None, None, params, &salt) {
        Ok(h) => Ok(h.to_string()),
        Err(e) => Err(format!("{e:?}")),
    }
}

/// Relies on `PasswordHash::new` and `Pbkdf2::verify_password`: whether
/// a password is accepted against a PHC string depends on the two
/// strings alone. A string that does not parse as a PHC hash accepts
/// nothing.
#[verifier::external_body]
fn check_password(password: &str, phc: &str) -> (r: bool)
    ensures
        r == pbkdf2_verifies(password@, phc@),
{
    match PasswordHash::new(phc) {
        Ok(parsed) => pbkdf2::Pbkdf2.verify_password(password.as_bytes(), &parsed).is_ok(),
        Err(_) => false,
    }
}

/// Relies on `Uuid::new_v4` and its hyphenated `Display` form, which is
/// 36 characters; nothing else is promised of a random identifier.
#[verifier::external_body]
fn new_uuid() -> (r: String)
    ensures
        r@.len() == 36,
{
    uuid::Uuid::new_v4().to_string()
}

/// What the store records of one user.
pub struct UserView {
    /// The identifier the user was created under.
    pub uuid: Seq<char>,
    /// The unique username.
    pub name: Seq<char>,
    /// The PHC hash string of the user's password.
    pub phc: Seq<char>,
}

/// One stored user: identifier, username and hashed password.
#[derive(Clone)]
pub struct User {
    user_uuid: String,
    username: String,
    password: String,
}

impl View for User {
    type V = UserView;

    closed spec fn view(&self) -> UserView {
        UserView { uuid: self.user_uuid@, name: self.username@, phc: self.password@ }
    }
}

/// No two records share a username.
pub open spec fn unique_names(users: Seq<UserView>) -> bool {
    forall|i: int, j: int|
        0 <= i < j < users.len() ==> (#[trigger] users[i]).name != (#[trigger] users[j]).name
}

/// The credential store's interface.
pub trait Users {
    /// The recorded users, in insertion order.
    spec fn users(&self) -> Seq<UserView>;

    /// Usernames are unique.
    open spec fn wf(&self) -> bool {
        unique_names(self.users())
    }

    /// Records a new user under a fresh identifier, with the password
    /// stored only as a salted hash. Refused when the username is taken;
    /// may also fail if the hashing itself does, in which case nothing
    /// is recorded.
    fn create_user(&mut self, username: String, password: String) -> (r: Result<(), String>)
        requires
            old(self).wf(),
        ensures
            final(self).wf(),
            (exists|i: int|
                0 <= i < old(self).users().len() && (#[trigger] old(self).users()[i]).name
                    == username@) ==> r is Err && final(self).users() == old(self).users()
                && r->Err_0@ == "User "@ + username@ + " already exists"@,
            r is Err ==> final(self).users() == old(self).users(),
            r is Ok ==> {
                &&& forall|i: int|
                    0 <= i < old(self).users().len() ==> (#[trigger] old(self).users()[i]).name
                        != username@
                &&& final(self).users().len() == old(self).users().len() + 1
                &&& final(self).users().take(old(self).users().len() as int) == old(self).users()
                &&& final(self).users().last().name == username@
                &&& final(self).users().last().uuid.len() == 36
                &&& pbkdf2_verifies(password@, final(self).users().last().phc)
            },
    ;

    /// Returns the identifier of the user with this username, exactly
    /// when such a user exists and the presented password verifies
    /// against the stored hash.
    fn get_user_uuid(&self, username: String, password: String) -> (r: Option<String>)
        requires
            self.wf(),
        ensures
            r is Some ==> exists|i: int|
                0 <= i < self.users().len() && (#[trigger] self.users()[i]).name == username@
                    && pbkdf2_verifies(password@, self.users()[i].phc) && r.unwrap()@
                    == self.users()[i].uuid,
            r is None ==> forall|i: int|
                0 <= i < self.users().len() && (#[trigger] self.users()[i]).name == username@
                    ==> !pbkdf2_verifies(password@, self.users()[i].phc),
    ;

    /// Removes the first user recorded under this identifier, if any.
    fn delete_user(&mut self, user_uuid: String)
        requires
            old(self).wf(),
        ensures
            final(self).wf(),
            (forall|i: int|
                0 <= i < old(self).users().len() ==> (#[trigger] old(self).users()[i]).uuid
                    != user_uuid@) ==> final(self).users() == old(self).users(),
            (exists|i: int|
                0 <= i < old(self).users().len() && (#[trigger] old(self).users()[i]).uuid
                    == user_uuid@) ==> exists|k: int|
                {
                    &&& 0 <= k < old(self).users().len()
                    &&& (#[trigger] old(self).users()[k]).uuid == user_uuid@
                    &&& forall|j: int| 0 <= j < k ==> (#[trigger] old(self).users()[j]).uuid != user_uuid@
                    &&& final(self).users() == old(self).users().remove(k)
                },
    ;
}

/// The in-memory credential store.
#[derive(Default)]
pub struct UsersImpl {
    users: Vec<User>,
}

impl UsersImpl {
    /// An empty store.
    pub fn new() -> (s: UsersImpl)
        ensures
            s.users() == Seq::<UserView>::empty(),
            s.wf(),
    {
        UsersImpl { users: Vec::new() }
    }

    /// How many users are recorded.
    pub fn user_count(&self) -> (n: usize)
        ensures
            n == self.users().len(),
    {
        self.users.len()
    }

    /// Records the given user verbatim; refused exactly when the
    /// username is already taken.
    pub fn add_user(&mut self, username: String, user_uuid: String, phc: String) -> (r: Result<
        (),
        String,
    >)
        requires
            old(self).wf(),
        ensures
            final(self).wf(),
            r is Ok <==> forall|i: int|
                0 <= i < old(self).users().len() ==> (#[trigger] old(self).users()[i]).name
                    != username@,
            r is Err ==> final(self).users() == old(self).users() && r->Err_0@ == "User "@
                + username@ + " already exists"@,
            r is Ok ==> final(self).users() == old(self).users().push(
                UserView { uuid: user_uuid@, name: username@, phc: phc@ },
            ),
    {
        if self.contains_username(&username) {
            return Err("User ".to_owned().concat(username.as_str()).concat(" already exists"));
        }
        let user = User { user_uuid, username, password: phc };
        self.users.push(user);
        proof {
            assert(self.users() =~= old(self).users().push(self.users().last()));
        }
        Ok(())
    }

    /// Whether a user with this username is recorded.
    fn contains_username(&self, username: &String) -> (r: bool)
        ensures
            r <==> exists|i: int|
                0 <= i < self.users().len() && (#[trigger] self.users()[i]).name == username@,
    {
        let mut i: usize = 0;
        while i < self.users.len()
            invariant
                0 <= i <= self.users().len(),
                forall|j: int| 0 <= j < i ==> (#[trigger] self.users()[j]).name != username@,
            decreases self.users().len() - i,
        {
            proof {
                assert(self.users()[i as int] == self.users@[i as int]@);
            }
            if self.users[i].username.eq(username) {
                return true;
            }
            i = i + 1;
        }
        false
    }
}

impl Users for UsersImpl {
    closed spec fn users(&self) -> Seq<UserView> {
        Seq::new(self.users@.len(), |i: int| self.users@[i]@)
    }

    fn create_user(&mut self, username: String, password: String) -> (r: Result<(), String>) {
        if self.contains_username(&username) {
            return Err("User ".to_owned().concat(username.as_str()).concat(" already exists"));
        }
        let salt = generate_salt();
        let hashed_password = match hash_password(password.as_str(), salt.as_str(), HASH_ROUNDS) {
            Ok(h) => h,
            Err(e) => return Err("Failed to hash password.\n".to_owned().concat(e.as_str())),
        };
        let user_uuid = new_uuid();
        let r = self.add_user(username, user_uuid, hashed_password);
        proof {
            if r is Ok {
                assert(self.users().take(old(self).users().len() as int) =~= old(self).users());
            }
        }
        r
    }

    fn get_user_uuid(&self, username: String, password: String) -> (r: Option<String>) {
        let mut i: usize = 0;
        while i < self.users.len()
            invariant
                self.wf(),
                0 <= i <= self.users().len(),
                forall|j: int| 0 <= j < i ==> (#[trigger] self.users()[j]).name != username@,
            decreases self.users().len() - i,
        {
            proof {
                assert(self.users()[i as int] == self.users@[i as int]@);
            }
            if self.users[i].username.eq(&username) {
                let hashed_password = self.users[i].password.clone();
                if check_password(password.as_str(), hashed_password.as_str()) {
                    return Some(self.users[i].user_uuid.clone());
                } else {
                    proof {
                        assert forall|j: int|
                            0 <= j < self.users().len() && (#[trigger] self.users()[j]).name
                                == username@ implies !pbkdf2_verifies(
                            password@,
                            self.users()[j].phc,
                        ) by {
                            if j < i as int {
                                assert(self.users()[j].name != self.users()[i as int].name);
                            } else if j > i as int {
                                assert(self.users()[i as int].name != self.users()[j].name);
                            }
                        }
                    }
                    return None;
                }
            }
            i = i + 1;
        }
        None
    }

    fn delete_user(&mut self, user_uuid: String) {
        let mut i: usize = 0;
        while i < self.users.len()
            invariant
                0 <= i <= self.users().len(),
                forall|j: int| 0 <= j < i ==> (#[trigger] self.users()[j]).uuid != user_uuid@,
                self.users() == old(self).users(),
                self.wf(),
            decreases self.users().len() - i,
        {
            proof {
                assert(self.users()[i as int] == self.users@[i as int]@);
            }
            if self.users[i].user_uuid.eq(&user_uuid) {
                proof {
                    assert(old(self).users()[i as int].uuid == user_uuid@);
                }
                self.users.remove(i);
                proof {
                    assert(self.users() =~= old(self).users().remove(i as int));
                    lemma_remove_keeps_unique_names(old(self).users(), i as int);
                }
                return ;
            }
            i = i + 1;
        }
    }
}

/// Removing one record cannot make two usernames collide.
proof fn lemma_remove_keeps_unique_names(users: Seq<UserView>, k: int)
    requires
        0 <= k < users.len(),
        unique_names(users),
    ensures
        unique_names(users.remove(k)),
{
    assert forall|i: int, j: int| 0 <= i < j < users.len() - 1 implies (#[trigger] users.remove(
        k,
    )[i]).name != (#[trigger] users.remove(k)[j]).name by {
        let i0 = if i < k {
            i
        } else {
            i + 1
        };
        let j0 = if j < k {
            j
        } else {
            j + 1
        };
        assert(users.remove(k)[i] == users[i0]);
        assert(users.remove(k)[j] == users[j0]);
    }
}

} // verus!
