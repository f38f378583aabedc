//! User bookkeeping: users keyed by a random identifier, their sessions,
//! and which user occupies which role. Identifiers come from a UUID
//! generator and session timestamps from the wall clock, both behind
//! trusted wrappers; everything else is plain data handling.

use vstd::prelude::*;

use crate::board::GameError;
use crate::board::PlayerRole;

verus! {

/// One registered user.
pub struct User {
    /// The user's unique identifier.
    pub id: String,
    /// The display name the user connected under.
    pub name: String,
    /// The identifier of the user's session.
    pub session_id: String,
    /// The role this user occupies in the running game, if any.
    pub player: Option<PlayerRole>,
}

/// One login session, with its creation and expiry times as seconds since
/// the Unix epoch.
pub struct UserSession {
    pub user_id: String,
    pub session_id: String,
    pub created_at: i64,
    pub expires_at: i64,
}

/// A user as plain values: identifier, name, session identifier, role.
pub open spec fn user_view(u: User) -> (Seq<char>, Seq<char>, Seq<char>, Option<PlayerRole>) {
    (u.id@, u.name@, u.session_id@, u.player)
}

/// A session as plain values: user identifier, session identifier,
/// creation time, expiry time.
pub open spec fn session_view(s: UserSession) -> (Seq<char>, Seq<char>, i64, i64) {
    (s.user_id@, s.session_id@, s.created_at, s.expires_at)
}

/// The first position at or after `i` of the user with identifier `id`.
pub open spec fn user_index_from(
    uv: Seq<(Seq<char>, Seq<char>, Seq<char>, Option<PlayerRole>)>,
    id: Seq<char>,
    i: nat,
) -> Option<int>
    decreases uv.len() - i,
{
    if i >= uv.len() {
        None
    } else if uv[i as int].0 == id {
        Some(i as int)
    } else {
        user_index_from(uv, id, i + 1)
    }
}

/// The first position of the user with identifier `id`.
pub open spec fn user_index(
    uv: Seq<(Seq<char>, Seq<char>, Seq<char>, Option<PlayerRole>)>,
    id: Seq<char>,
) -> Option<int> {
    user_index_from(uv, id, 0)
}

/// The first position at or after `i` of the session with identifier
/// `sid`.
pub open spec fn session_index_from(
    sv: Seq<(Seq<char>, Seq<char>, i64, i64)>,
    sid: Seq<char>,
    i: nat,
) -> Option<int>
    decreases sv.len() - i,
{
    if i >= sv.len() {
        None
    } else if sv[i as int].1 == sid {
        Some(i as int)
    } else {
        session_index_from(sv, sid, i + 1)
    }
}

/// The first position of the session with identifier `sid`.
pub open spec fn session_index(sv: Seq<(Seq<char>, Seq<char>, i64, i64)>, sid: Seq<char>) -> Option<
    int,
> {
    session_index_from(sv, sid, 0)
}

/// The first position at or after `i` of the assignment of `role`.
pub open spec fn assignment_index_from(
    av: Seq<(PlayerRole, Seq<char>)>,
    role: PlayerRole,
    i: nat,
) -> Option<int>
    decreases av.len() - i,
{
    if i >= av.len() {
        None
    } else if av[i as int].0 == role {
        Some(i as int)
    } else {
        assignment_index_from(av, role, i + 1)
    }
}

/// The first position of the assignment of `role`.
pub open spec fn assignment_index(av: Seq<(PlayerRole, Seq<char>)>, role: PlayerRole) -> Option<
    int,
> {
    assignment_index_from(av, role, 0)
}

/// Some user holds an assignment of `role`.
pub open spec fn role_assigned(av: Seq<(PlayerRole, Seq<char>)>, role: PlayerRole) -> bool {
    assignment_index(av, role) is Some
}

/// A fresh random identifier.
///
/// Relies on `uuid::Uuid::new_v4` and its display form: a version-4 UUID
/// renders as exactly 36 hyphenated characters.
#[verifier::external_body]
fn fresh_id() -> (r: String)
    ensures
        r@.len() == 36,
{
    uuid::Uuid::new_v4().to_string()
}

/// The current wall-clock time as seconds since the Unix epoch.
///
/// Relies on `chrono::Utc::now`; nothing is promised of the value.
#[verifier::external_body]
fn now_timestamp() -> i64 {
    chrono::Utc::now().timestamp()
}

/// The registry of users, their sessions and their role assignments.
pub struct UserManager {
    users: Vec<User>,
    sessions: Vec<UserSession>,
    assignments: Vec<(PlayerRole, String)>,
}

impl UserManager {
    /// The registered users as plain values, in registration order.
    pub closed spec fn users_view(&self) -> Seq<
        (Seq<char>, Seq<char>, Seq<char>, Option<PlayerRole>),
    > {
        self.users@.map_values(|u: User| user_view(u))
    }

    /// The sessions as plain values, in creation order.
    pub closed spec fn sessions_view(&self) -> Seq<(Seq<char>, Seq<char>, i64, i64)> {
        self.sessions@.map_values(|s: UserSession| session_view(s))
    }

    /// The role assignments as plain values, in assignment order.
    pub closed spec fn assignments_view(&self) -> Seq<(PlayerRole, Seq<char>)> {
        self.assignments@.map_values(|a: (PlayerRole, String)| (a.0, a.1@))
    }

    /// An empty registry.
    pub fn new() -> (m: UserManager)
        ensures
            m.users_view() == Seq::<(Seq<char>, Seq<char>, Seq<char>, Option<PlayerRole>)>::empty(),
            m.sessions_view() == Seq::<(Seq<char>, Seq<char>, i64, i64)>::empty(),
            m.assignments_view() == Seq::<(PlayerRole, Seq<char>)>::empty(),
    {
        let m = UserManager { users: Vec::new(), sessions: Vec::new(), assignments: Vec::new() };
        proof {
            assert(m.users_view() =~= Seq::<
                (Seq<char>, Seq<char>, Seq<char>, Option<PlayerRole>),
            >::empty());
            assert(m.sessions_view() =~= Seq::<(Seq<char>, Seq<char>, i64, i64)>::empty());
            assert(m.assignments_view() =~= Seq::<(PlayerRole, Seq<char>)>::empty());
        }
        m
    }

    /// Register a user under `name`: a fresh identifier and a fresh
    /// session whose expiry lies a day past its creation (capped at the
    /// largest representable time). Returns the user; the registry keeps
    /// a copy and the new session.
    pub fn create_user(&mut self, name: String) -> (u: User)
        ensures
            u.name@ == name@,
            u.player is None,
            u.id@.len() == 36,
            u.session_id@.len() == 36,
            final(self).users_view() == old(self).users_view().push(user_view(u)),
            final(self).assignments_view() == old(self).assignments_view(),
            final(self).sessions_view().len() == old(self).sessions_view().len() + 1,
            final(self).sessions_view().subrange(
                0,
                old(self).sessions_view().len() as int,
            ) == old(self).sessions_view(),
            ({
                let s = final(self).sessions_view().last();
                &&& s.0 == u.id@
                &&& s.1 == u.session_id@
                &&& s.3 as int == (if s.2 <= i64::MAX - 86400 {
                    s.2 + 86400
                } else {
                    i64::MAX as int
                })
            }),
    {
        let id = fresh_id();
        let sid = fresh_id();
        let now = now_timestamp();
        let expires = if now <= i64::MAX - 86400 {
            now + 86400
        } else {
            i64::MAX
        };
        let user = User {
            id: id.clone(),
            name: name.clone(),
            session_id: sid.clone(),
            player: None,
        };
        let session = UserSession {
            user_id: id.clone(),
            session_id: sid.clone(),
            created_at: now,
            expires_at: expires,
        };
        self.users.push(User { id, name, session_id: sid, player: None });
        self.sessions.push(session);
        proof {
            assert(self.users_view() =~= old(self).users_view().push(user_view(user)));
            assert(self.sessions_view() =~= old(self).sessions_view().push(
                (user.id@, user.session_id@, now, expires),
            ));
            assert(self.sessions_view().subrange(0, old(self).sessions_view().len() as int)
                =~= old(self).sessions_view());
        }
        user
    }

    /// The user owning the session with identifier `session_id`, if both
    /// the session and its user are registered.
    pub fn get_user_by_session(&self, session_id: &str) -> (r: Option<&User>)
        ensures
            match session_index(self.sessions_view(), session_id@) {
                None => r is None,
                Some(si) => match user_index(self.users_view(), self.sessions_view()[si].0) {
                    None => r is None,
                    Some(ui) => match r {
                        Some(u) => user_view(*u) == self.users_view()[ui],
                        None => false,
                    },
                },
            },
    {
        let key = session_id.to_owned();
        let mut si: usize = 0;
        loop
            invariant
                si <= self.sessions@.len(),
                key@ == session_id@,
                session_index(self.sessions_view(), session_id@) == session_index_from(
                    self.sessions_view(),
                    session_id@,
                    si as nat,
                ),
            ensures
                si < self.sessions@.len(),
                session_index(self.sessions_view(), session_id@) == Some(si as int),
            decreases self.sessions@.len() - si,
        {
            if si >= self.sessions.len() {
                return None;
            }
            if self.sessions[si].session_id == key {
                break;
            }
            si = si + 1;
        }
        let uid = &self.sessions[si].user_id;
        let mut ui: usize = 0;
        loop
            invariant
                ui <= self.users@.len(),
                si < self.sessions@.len(),
                uid@ == self.sessions_view()[si as int].0,
                session_index(self.sessions_view(), session_id@) == Some(si as int),
                user_index(self.users_view(), uid@) == user_index_from(
                    self.users_view(),
                    uid@,
                    ui as nat,
                ),
            decreases self.users@.len() - ui,
        {
            if ui >= self.users.len() {
                return None;
            }
            if self.users[ui].id == *uid {
                return Some(&self.users[ui]);
            }
            ui = ui + 1;
        }
    }

    /// Assign `player` to the user with identifier `user_id`. Refused
    /// when the role is already assigned; otherwise the assignment is
    /// recorded and, if that user is registered, its role field is set.
    pub fn assign_player(&mut self, user_id: &str, player: PlayerRole) -> (r: Result<
        (),
        GameError,
    >)
        ensures
            match r {
                Err(e) => {
                    &&& e == GameError::TableFull
                    &&& role_assigned(old(self).assignments_view(), player)
                    &&& final(self).users_view() == old(self).users_view()
                    &&& final(self).sessions_view() == old(self).sessions_view()
                    &&& final(self).assignments_view() == old(self).assignments_view()
                },
                Ok(()) => {
                    &&& !role_assigned(old(self).assignments_view(), player)
                    &&& final(self).assignments_view() == old(self).assignments_view().push(
                        (player, user_id@),
                    )
                    &&& final(self).sessions_view() == old(self).sessions_view()
                    &&& match user_index(old(self).users_view(), user_id@) {
                        Some(ui) => {
                            let u = old(self).users_view()[ui];
                            final(self).users_view() == old(self).users_view().update(
                                ui,
                                (u.0, u.1, u.2, Some(player)),
                            )
                        },
                        None => final(self).users_view() == old(self).users_view(),
                    }
                },
            },
    {
        let mut ai: usize = 0;
        loop
            invariant
                ai <= self.assignments@.len(),
                *self == *old(self),
                assignment_index(self.assignments_view(), player) == assignment_index_from(
                    self.assignments_view(),
                    player,
                    ai as nat,
                ),
            ensures
                *self == *old(self),
                assignment_index(old(self).assignments_view(), player) is None,
            decreases self.assignments@.len() - ai,
        {
            if ai >= self.assignments.len() {
                break;
            }
            if self.assignments[ai].0 == player {
                return Err(GameError::TableFull);
            }
            ai = ai + 1;
        }
        let key = user_id.to_owned();
        self.assignments.push((player, key));
        proof {
            assert(self.assignments_view() =~= old(self).assignments_view().push(
                (player, user_id@),
            ));
            assert(self.sessions_view() =~= old(self).sessions_view());
            assert(self.users_view() =~= old(self).users_view());
        }
        let key2 = user_id.to_owned();
        let mut ui: usize = 0;
        loop
            invariant
                ui <= self.users@.len(),
                key2@ == user_id@,
                assignment_index(old(self).assignments_view(), player) is None,
                self.assignments_view() == old(self).assignments_view().push((player, user_id@)),
                self.sessions_view() == old(self).sessions_view(),
                self.users_view() == old(self).users_view(),
                user_index(self.users_view(), user_id@) == user_index_from(
                    self.users_view(),
                    user_id@,
                    ui as nat,
                ),
            decreases self.users@.len() - ui,
        {
            if ui >= self.users.len() {
                return Ok(());
            }
            if self.users[ui].id == key2 {
                let mut u = self.users.remove(ui);
                u.player = Some(player);
                self.users.insert(ui, u);
                proof {
                    let uv = old(self).users_view();
                    assert(self.users_view() =~= uv.update(
                        ui as int,
                        (uv[ui as int].0, uv[ui as int].1, uv[ui as int].2, Some(player)),
                    ));
                }
                return Ok(());
            }
            ui = ui + 1;
        }
    }

    /// The user assigned to `player`, if the assignment and the user are
    /// both registered.
    pub fn get_user_by_player(&self, player: &PlayerRole) -> (r: Option<&User>)
        ensures
            match assignment_index(self.assignments_view(), *player) {
                None => r is None,
                Some(ai) => match user_index(self.users_view(), self.assignments_view()[ai].1) {
                    None => r is None,
                    Some(ui) => match r {
                        Some(u) => user_view(*u) == self.users_view()[ui],
                        None => false,
                    },
                },
            },
    {
        let mut ai: usize = 0;
        loop
            invariant
                ai <= self.assignments@.len(),
                assignment_index(self.assignments_view(), *player) == assignment_index_from(
                    self.assignments_view(),
                    *player,
                    ai as nat,
                ),
            ensures
                ai < self.assignments@.len(),
                assignment_index(self.assignments_view(), *player) == Some(ai as int),
            decreases self.assignments@.len() - ai,
        {
            if ai >= self.assignments.len() {
                return None;
            }
            if self.assignments[ai].0 == *player {
                break;
            }
            ai = ai + 1;
        }
        let uid = &self.assignments[ai].1;
        let mut ui: usize = 0;
        loop
            invariant
                ui <= self.users@.len(),
                ai < self.assignments@.len(),
                uid@ == self.assignments_view()[ai as int].1,
                assignment_index(self.assignments_view(), *player) == Some(ai as int),
                user_index(self.users_view(), uid@) == user_index_from(
                    self.users_view(),
                    uid@,
                    ui as nat,
                ),
            decreases self.users@.len() - ui,
        {
            if ui >= self.users.len() {
                return None;
            }
            if self.users[ui].id == *uid {
                return Some(&self.users[ui]);
            }
            ui = ui + 1;
        }
    }

    /// Unregister the user with identifier `user_id`: the user leaves the
    /// registry together with its session and, if it occupied a role,
    /// that role's assignment. Unknown identifiers change nothing.
    pub fn remove_user(&mut self, user_id: &str)
        ensures
            match user_index(old(self).users_view(), user_id@) {
                None => {
                    &&& final(self).users_view() == old(self).users_view()
                    &&& final(self).sessions_view() == old(self).sessions_view()
                    &&& final(self).assignments_view() == old(self).assignments_view()
                },
                Some(ui) => {
                    let u = old(self).users_view()[ui];
                    &&& final(self).users_view() == old(self).users_view().remove(ui)
                    &&& (match session_index(old(self).sessions_view(), u.2) {
                        Some(si) => final(self).sessions_view() == old(
                            self,
                        ).sessions_view().remove(si),
                        None => final(self).sessions_view() == old(self).sessions_view(),
                    })
                    &&& (match u.3 {
                        Some(p) => match assignment_index(old(self).assignments_view(), p) {
                            Some(ai) => final(self).assignments_view() == old(
                                self,
                            ).assignments_view().remove(ai),
                            None => final(self).assignments_view() == old(
                                self,
                            ).assignments_view(),
                        },
                        None => final(self).assignments_view() == old(self).assignments_view(),
                    })
                },
            },
    {
        let key = user_id.to_owned();
        let mut ui: usize = 0;
        loop
            invariant
                ui <= self.users@.len(),
                key@ == user_id@,
                *self == *old(self),
                user_index(self.users_view(), user_id@) == user_index_from(
                    self.users_view(),
                    user_id@,
                    ui as nat,
                ),
            ensures
                ui < self.users@.len(),
                *self == *old(self),
                user_index(self.users_view(), user_id@) == Some(ui as int),
            decreases self.users@.len() - ui,
        {
            if ui >= self.users.len() {
                return ;
            }
            if self.users[ui].id == key {
                break;
            }
            ui = ui + 1;
        }
        let user = self.users.remove(ui);
        proof {
            assert(self.users_view() =~= old(self).users_view().remove(ui as int));
        }
        let mut si: usize = 0;
        loop
            invariant_except_break
                self.sessions_view() == old(self).sessions_view(),
                session_index(self.sessions_view(), user.session_id@) == session_index_from(
                    self.sessions_view(),
                    user.session_id@,
                    si as nat,
                ),
            invariant
                si <= self.sessions@.len(),
                self.users_view() == old(self).users_view().remove(
                    user_index(old(self).users_view(), user_id@)->0,
                ),
                self.assignments_view() == old(self).assignments_view(),
                user_index(old(self).users_view(), user_id@) is Some,
                user_view(user) == old(self).users_view()[user_index(
                    old(self).users_view(),
                    user_id@,
                )->0],
            ensures
                self.users_view() == old(self).users_view().remove(
                    user_index(old(self).users_view(), user_id@)->0,
                ),
                self.assignments_view() == old(self).assignments_view(),
                user_index(old(self).users_view(), user_id@) is Some,
                user_view(user) == old(self).users_view()[user_index(
                    old(self).users_view(),
                    user_id@,
                )->0],
                match session_index(old(self).sessions_view(), user.session_id@) {
                    Some(si2) => self.sessions_view() == old(self).sessions_view().remove(si2),
                    None => self.sessions_view() == old(self).sessions_view(),
                },
            decreases self.sessions@.len() - si,
        {
            if si >= self.sessions.len() {
                break;
            }
            if self.sessions[si].session_id == user.session_id {
                let _ = self.sessions.remove(si);
                proof {
                    assert(self.sessions_view() =~= old(self).sessions_view().remove(si as int));
                }
                break;
            }
            si = si + 1;
        }
        let role = match &user.player {
            Some(p) => *p,
            None => {
                return ;
            },
        };
        let mut ai: usize = 0;
        loop
            invariant
                ai <= self.assignments@.len(),
                self.users_view() == old(self).users_view().remove(
                    user_index(old(self).users_view(), user_id@)->0,
                ),
                user_index(old(self).users_view(), user_id@) is Some,
                user_view(user) == old(self).users_view()[user_index(
                    old(self).users_view(),
                    user_id@,
                )->0],
                user.player == Some(role),
                (match session_index(old(self).sessions_view(), user.session_id@) {
                    Some(si2) => self.sessions_view() == old(self).sessions_view().remove(si2),
                    None => self.sessions_view() == old(self).sessions_view(),
                }),
                self.assignments_view() == old(self).assignments_view(),
                assignment_index(self.assignments_view(), role) == assignment_index_from(
                    self.assignments_view(),
                    role,
                    ai as nat,
                ),
            decreases self.assignments@.len() - ai,
        {
            if ai >= self.assignments.len() {
                return ;
            }
            if self.assignments[ai].0 == role {
                let _ = self.assignments.remove(ai);
                proof {
                    assert(self.assignments_view() =~= old(self).assignments_view().remove(
                        ai as int,
                    ));
                }
                return ;
            }
            ai = ai + 1;
        }
    }
}

} // verus!
