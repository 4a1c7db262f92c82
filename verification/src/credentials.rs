//! The credential store: registered identities and secret
//! verification.
//!
//! A secret is never stored; registration derives a one-way verifier
//! from it (a bcrypt hash) and keeps only that.  Authentication
//! recomputes the verification, and answers with the one error
//! `InvalidCredentials` whether the username is unknown or the secret
//! is wrong, so that no probe can tell the two apart.

use vstd::prelude::*;

use crate::errors::MarketError;
use crate::models::User;
use crate::services::fresh_id;

verus! {

/// Whether `password` verifies against the bcrypt hash `hash`.  The
/// outcome of `bcrypt::verify` depends on the two arguments alone;
/// this names it, since bcrypt's algorithm is not restated here.
pub uninterp spec fn bcrypt_matches(password: Seq<char>, hash: Seq<char>) -> bool;

/// Whether `hash` is a well-formed bcrypt hash string, as produced by
/// `bcrypt::hash` and accepted without error by `bcrypt::verify`.
pub uninterp spec fn bcrypt_wellformed(hash: Seq<char>) -> bool;

/// The fixed outward shape of every hash `bcrypt::hash` produces with
/// `DEFAULT_COST`: exactly 60 characters, opening with the `$2b$12$`
/// header.  Any secret that does not itself wear this shape therefore
/// differs from its stored verifier.
pub open spec fn bcrypt_hash_shaped(h: Seq<char>) -> bool {
    &&& h.len() == 60
    &&& h[0] == '$'
    &&& h[1] == '2'
    &&& h[2] == 'b'
    &&& h[3] == '$'
    &&& h[4] == '1'
    &&& h[5] == '2'
    &&& h[6] == '$'
}

#[verifier::external_type_specification]
#[verifier::external_body]
pub struct ExBcryptError(bcrypt::BcryptError);

/// Relies on `bcrypt::hash` with `DEFAULT_COST`: on success the result
/// is a well-formed bcrypt hash in the fixed 60-character `$2b$12$`
/// form, against which exactly the hashed password verifies.  It
/// draws a random salt, so nothing more is promised of the value.
#[verifier::external_body]
fn bcrypt_hash(password: &str) -> (r: Result<String, bcrypt::BcryptError>)
    ensures
        r matches Ok(h) ==> bcrypt_matches(password@, h@) && bcrypt_wellformed(h@)
            && bcrypt_hash_shaped(h@),
{
    bcrypt::hash(password, bcrypt::DEFAULT_COST)
}

/// Relies on `bcrypt::verify`: whenever it answers at all, the answer
/// is whether the password verifies against the hash — a function of
/// the two arguments alone — and on a well-formed hash it never
/// refuses to answer.
#[verifier::external_body]
fn bcrypt_verify(password: &str, hash: &str) -> (r: Result<bool, bcrypt::BcryptError>)
    ensures
        match r {
            Ok(b) => b == bcrypt_matches(password@, hash@),
            Err(_) => !bcrypt_wellformed(hash@),
        },
{
    bcrypt::verify(password, hash)
}

/// Whether some registered user carries this username.
pub open spec fn user_named(users: Seq<User>, name: Seq<char>) -> bool {
    exists|i: int| 0 <= i < users.len() && users[i].username@ == name
}

/// Whether a login with this username and password must succeed: some
/// registered user carries the username and the password verifies
/// against that user's stored hash.
pub open spec fn auth_ok(users: Seq<User>, name: Seq<char>, password: Seq<char>) -> bool {
    exists|i: int|
        0 <= i < users.len() && users[i].username@ == name && bcrypt_matches(
            password,
            users[i].password_hash@,
        )
}

/// The set of registered identities.  Usernames are unique, and every
/// stored verifier is a well-formed bcrypt hash.
pub struct CredentialStore {
    users: Vec<User>,
}

impl View for CredentialStore {
    type V = Seq<User>;

    closed spec fn view(&self) -> Seq<User> {
        self.users@
    }
}

impl CredentialStore {
    #[verifier::type_invariant]
    spec fn wf(self) -> bool {
        &&& forall|i: int, j: int|
            0 <= i < j < self.users@.len() ==> self.users@[i].username@
                != self.users@[j].username@
        &&& forall|i: int|
            0 <= i < self.users@.len() ==> bcrypt_wellformed(#[trigger] self.users@[i].password_hash@)
    }

    /// An empty store: no identity registered.
    pub fn new() -> (s: Self)
        ensures
            s@ == Seq::<User>::empty(),
    {
        CredentialStore { users: Vec::new() }
    }

    /// How many identities are registered.
    pub fn user_count(&self) -> (n: usize)
        ensures
            n == self@.len(),
    {
        self.users.len()
    }

    /// Registers a new identity.  A username already present (exact,
    /// case-sensitive match) is refused with `DuplicateUsername`; if
    /// deriving the verifier fails the store is unchanged and
    /// `InternalHashingFailure` is reported; otherwise the identity is
    /// appended and returned, and its stored verifier is one against
    /// which exactly the given secret verifies.
    pub fn register(&mut self, username: &String, password: &String) -> (r: Result<
        User,
        MarketError,
    >)
        ensures
            user_named(old(self)@, username@) ==> {
                &&& r == Err::<User, MarketError>(MarketError::DuplicateUsername)
                &&& final(self)@ == old(self)@
            },
            !user_named(old(self)@, username@) ==> match r {
                Ok(u) => {
                    &&& final(self)@ == old(self)@.push(u)
                    &&& u.username@ == username@
                    &&& bcrypt_matches(password@, u.password_hash@)
                    &&& bcrypt_hash_shaped(u.password_hash@)
                    &&& u.id@.len() == 36
                },
                Err(e) => {
                    &&& e == MarketError::InternalHashingFailure
                    &&& final(self)@ == old(self)@
                },
            },
    {
        proof {
            use_type_invariant(&*self);
        }
        let n = self.users.len();
        let mut i: usize = 0;
        while i < n
            invariant
                n == self.users@.len(),
                i <= n,
                forall|j: int| 0 <= j < i ==> self.users@[j].username@ != username@,
            decreases n - i,
        {
            if self.users[i].username == *username {
                return Err(MarketError::DuplicateUsername);
            }
            i = i + 1;
        }
        match bcrypt_hash(password.as_str()) {
            Err(_) => Err(MarketError::InternalHashingFailure),
            Ok(password_hash) => {
                let new_user = User { id: fresh_id(), username: username.clone(), password_hash };
                let returned = clone_user(&new_user);
                let mut users: Vec<User> = Vec::new();
                proof {
                    use_type_invariant(&*self);
                }
                core::mem::swap(&mut users, &mut self.users);
                users.push(new_user);
                self.users = users;
                Ok(returned)
            },
        }
    }

    /// Verifies a login.  Returns the registered identity exactly when
    /// some user carries the username and the secret verifies against
    /// that user's stored hash; every failure — unknown username or
    /// wrong secret alike — is the one error `InvalidCredentials`.
    pub fn authenticate(&self, username: &String, password: &String) -> (r: Result<
        User,
        MarketError,
    >)
        ensures
            r matches Ok(u) ==> {
                &&& auth_ok(self@, username@, password@)
                &&& exists|i: int| 0 <= i < self@.len() && self@[i] == u
                &&& u.username@ == username@
                &&& bcrypt_matches(password@, u.password_hash@)
            },
            r is Err ==> r == Err::<User, MarketError>(MarketError::InvalidCredentials)
                && !auth_ok(self@, username@, password@),
            auth_ok(self@, username@, password@) <==> r is Ok,
    {
        proof {
            use_type_invariant(self);
        }
        let n = self.users.len();
        let mut i: usize = 0;
        while i < n
            invariant
                n == self.users@.len(),
                i <= n,
                forall|j: int| 0 <= j < i ==> self.users@[j].username@ != username@,
            decreases n - i,
        {
            if self.users[i].username == *username {
                proof {
                    use_type_invariant(self);
                }
                match bcrypt_verify(password.as_str(), self.users[i].password_hash.as_str()) {
                    Ok(b) => {
                        if b {
                            return Ok(clone_user(&self.users[i]));
                        } else {
                            proof {
                                lemma_unique_name_blocks(
                                    self.users@,
                                    username@,
                                    password@,
                                    i as int,
                                );
                            }
                            return Err(MarketError::InvalidCredentials);
                        }
                    },
                    Err(_) => {
                        proof {
                            lemma_unique_name_blocks(self.users@, username@, password@, i as int);
                        }
                        return Err(MarketError::InvalidCredentials);
                    },
                }
            }
            i = i + 1;
        }
        Err(MarketError::InvalidCredentials)
    }
}

/// With unique usernames, if the one user carrying `name` does not
/// verify `password`, then no user does.
proof fn lemma_unique_name_blocks(users: Seq<User>, name: Seq<char>, password: Seq<char>, i: int)
    requires
        forall|p: int, q: int|
            0 <= p < q < users.len() ==> users[p].username@ != users[q].username@,
        0 <= i < users.len(),
        users[i].username@ == name,
        !bcrypt_matches(password, users[i].password_hash@),
    ensures
        !auth_ok(users, name, password),
{
    assert forall|j: int|
        0 <= j < users.len() && users[j].username@ == name implies !bcrypt_matches(
        password,
        users[j].password_hash@,
    ) by {
        if j < i {
            assert(users[j].username@ != users[i].username@);
        } else if j > i {
            assert(users[i].username@ != users[j].username@);
        }
    }
}

/// A by-value copy of a registered identity, field for field.
fn clone_user(u: &User) -> (r: User)
    ensures
        r == *u,
{
    User {
        id: u.id.clone(),
        username: u.username.clone(),
        password_hash: u.password_hash.clone(),
    }
}

/// Law: the stored verifier is not the secret itself.  A registered
/// verifier always wears bcrypt's fixed 60-character `$2b$12$` shape,
/// so it differs from every secret that does not itself wear that
/// shape — any secret of another length, or without that header.  (A
/// secret dressed up as a bcrypt hash is the one input this statement
/// leaves out.)
pub proof fn lemma_verifier_not_plaintext(hash: Seq<char>, password: Seq<char>)
    requires
        bcrypt_hash_shaped(hash),
        !bcrypt_hash_shaped(password),
    ensures
        hash != password,
{
}

/// Law: authentication leaks no existence signal.  For a username
/// nobody carries, no password can succeed; and for a username that is
/// carried, a password that does not verify against that user's hash
/// cannot succeed either.  `authenticate` answers both failures with
/// the same `InvalidCredentials`.
pub proof fn lemma_auth_symmetry(
    users: Seq<User>,
    ghost_name: Seq<char>,
    any_password: Seq<char>,
    real_name: Seq<char>,
    wrong_password: Seq<char>,
)
    requires
        !user_named(users, ghost_name),
        forall|i: int|
            0 <= i < users.len() && users[i].username@ == real_name ==> !bcrypt_matches(
                wrong_password,
                #[trigger] users[i].password_hash@,
            ),
    ensures
        !auth_ok(users, ghost_name, any_password),
        !auth_ok(users, real_name, wrong_password),
{
}

} // verus!
