//! Login sessions kept in the cache: a session is stored under its token,
//! and the token under a relation key made of a prefix and the account's
//! serial number, so that a new login can drop the previous token.
use vstd::prelude::*;
use crate::cache::{
    apply_command, apply_commands, commands_view, lemma_apply_commands_concat, make_cache_key,
    CacheCommand, CacheValue, CommandView, StoredView,
};
use crate::error::{is_custom, ServiceError, RC_INVALID_TOKEN};
use crate::text::{decimal, u64_to_decimal};

verus! {

pub const SESSION_KEY_PREFIX_CLEANER: &'static str = "clr";

pub const SESSION_KEY_PREFIX_VENDOR: &'static str = "vdr";

pub const SESSION_KEY_PREFIX_ADMIN: &'static str = "admin";

/// A login session.
#[derive(Debug)]
pub struct Session {
    pub sqn: u32,
    /// create time in sec
    pub ctime: u64,
    pub others: Option<String>,
}

/// What a session holds.
pub struct SessionView {
    pub sqn: u32,
    pub ctime: u64,
    pub others: Option<Seq<char>>,
}

pub open spec fn opt_text_view(o: Option<String>) -> Option<Seq<char>> {
    match o {
        Some(s) => Some(s@),
        None => None,
    }
}

impl View for Session {
    type V = SessionView;

    open spec fn view(&self) -> SessionView {
        SessionView { sqn: self.sqn, ctime: self.ctime, others: opt_text_view(self.others) }
    }
}

/// The relation key of an account: `prefix/sqn`.
pub open spec fn session_key(prefix: Seq<char>, sqn: u32) -> Seq<char> {
    prefix + seq!['/'] + decimal(sqn as nat)
}

/// The message of a refused token.
pub open spec fn invalid_token_msg() -> Seq<char> {
    "Token失效或非法!"@
}

/// The commands that store a new session under `token` and the token
/// under the relation key.
pub open spec fn create_commands(
    token: Seq<char>,
    prefix: Seq<char>,
    s: SessionView,
    expire_time: u32,
) -> Seq<CommandView> {
    seq![
        CommandView::Store { key: token, value: StoredView::Session(s), expire: Some(expire_time) },
        CommandView::Store {
            key: session_key(prefix, s.sqn),
            value: StoredView::Text(token),
            expire: Some(expire_time),
        },
    ]
}

/// The commands that drop the session of `token` and its relation key.
pub open spec fn remove_commands(token: Seq<char>, prefix: Seq<char>, sqn: u32) -> Seq<
    CommandView,
> {
    seq![CommandView::Remove { key: token }, CommandView::Remove { key: session_key(prefix, sqn) }]
}

/// Whether a session created at `ctime` (seconds) is renewed when it is
/// loaded at `now` (seconds): while no more than half the expiry time has passed.
pub open spec fn renews(ctime: u64, now: u64, expire_time: u32) -> bool {
    ctime + expire_time / 2 >= now
}

fn opt_text_copy(o: &Option<String>) -> (res: Option<String>)
    ensures
        opt_text_view(res) == opt_text_view(*o),
{
    match o {
        Some(s) => Some(s.clone()),
        None => None,
    }
}

impl Session {
    /// A session with the same contents.
    pub fn copy(&self) -> (res: Session)
        ensures
            res@ == self@,
    {
        Session { sqn: self.sqn, ctime: self.ctime, others: opt_text_copy(&self.others) }
    }

    /// The relation key of an account: `prefix/sqn`.
    pub fn make_cache_key(prefix: &str, sqn: u32) -> (res: String)
        ensures
            res@ == session_key(prefix@, sqn),
    {
        let n = u64_to_decimal(sqn as u64);
        make_cache_key(prefix, n.as_str())
    }

    /// A new session for the account `sqn`, created at `now_ms` (milliseconds),
    /// and the commands that store it under `token` and the token under the
    /// relation key, both for `expire_time` seconds.
    pub fn create(
        token: &str,
        key_prefix: &str,
        sqn: u32,
        others: Option<String>,
        now_ms: u64,
        expire_time: u32,
    ) -> (res: (Session, Vec<CacheCommand>))
        ensures
            res.0@ == (SessionView { sqn, ctime: now_ms / 1000, others: opt_text_view(others) }),
            commands_view(res.1@) == create_commands(token@, key_prefix@, res.0@, expire_time),
    {
        let ses = Session { sqn: sqn, ctime: now_ms / 1000, others };
        let mut cmds: Vec<CacheCommand> = Vec::new();
        cmds.push(
            CacheCommand::Store {
                key: token.to_owned(),
                value: CacheValue::Session(ses.copy()),
                expire: Some(expire_time),
            },
        );
        cmds.push(
            CacheCommand::Store {
                key: Self::make_cache_key(key_prefix, sqn),
                value: CacheValue::Text(token.to_owned()),
                expire: Some(expire_time),
            },
        );
        proof {
            assert(commands_view(cmds@) =~= create_commands(token@, key_prefix@, ses@, expire_time));
        }
        (ses, cmds)
    }

    /// The command that drops the relation key of the account `sqn`.
    pub fn clean_relation(key_prefix: &str, sqn: u32) -> (res: CacheCommand)
        ensures
            res@ == (CommandView::Remove { key: session_key(key_prefix@, sqn) }),
    {
        CacheCommand::Remove { key: Self::make_cache_key(key_prefix, sqn) }
    }

    /// The command that stores this session under `token` for `expire_time` seconds.
    pub fn save(&self, token: &str, expire_time: u32) -> (res: CacheCommand)
        ensures
            res@ == (CommandView::Store {
                key: token@,
                value: StoredView::Session(self@),
                expire: Some(expire_time),
            }),
    {
        CacheCommand::Store {
            key: token.to_owned(),
            value: CacheValue::Session(self.copy()),
            expire: Some(expire_time),
        }
    }

    /// The session found under `token` (if any), loaded at `now_ms`
    /// (milliseconds). A session is renewed, its creation time set to now
    /// and stored again, while no more than half of `expire_time` seconds
    /// has passed since its creation time. No session: the token is refused.
    pub fn load(token: &str, found: Option<Session>, now_ms: u64, expire_time: u32) -> (res:
        Result<(Session, Vec<CacheCommand>), ServiceError>)
        ensures
            match found {
                None => res matches Err(e) && is_custom(e, RC_INVALID_TOKEN, invalid_token_msg()),
                Some(f) => res matches Ok((s, cmds)) && {
                    let now = now_ms / 1000;
                    if renews(f.ctime, now as u64, expire_time) {
                        &&& s@ == (SessionView { ctime: now as u64, ..f@ })
                        &&& commands_view(cmds@) == seq![
                            CommandView::Store {
                                key: token@,
                                value: StoredView::Session(s@),
                                expire: Some(expire_time),
                            },
                        ]
                    } else {
                        &&& s@ == f@
                        &&& cmds@.len() == 0
                    }
                },
            },
    {
        match found {
            Some(mut sess) => {
                let now = now_ms / 1000;
                let half: u64 = (expire_time / 2) as u64;
                let mut cmds: Vec<CacheCommand> = Vec::new();
                if now <= sess.ctime || now - sess.ctime <= half {
                    sess.ctime = now;
                    cmds.push(sess.save(token, expire_time));
                    proof {
                        assert(commands_view(cmds@) =~= seq![
                            CommandView::Store {
                                key: token@,
                                value: StoredView::Session(sess@),
                                expire: Some(expire_time),
                            },
                        ]);
                    }
                }
                Ok((sess, cmds))
            },
            None => Err(ServiceError::Custom(RC_INVALID_TOKEN, "Token失效或非法!".to_owned())),
        }
    }

    /// The commands that drop the session found under `token` and the
    /// relation key of its account. No session: the token is refused.
    pub fn remove(token: &str, prefix: &str, found: Option<Session>) -> (res: Result<
        Vec<CacheCommand>,
        ServiceError,
    >)
        ensures
            match found {
                None => res matches Err(e) && is_custom(e, 1, invalid_token_msg()),
                Some(f) => res matches Ok(cmds) && commands_view(cmds@) == remove_commands(
                    token@,
                    prefix@,
                    f.sqn,
                ),
            },
    {
        match found {
            Some(sess) => {
                let mut cmds: Vec<CacheCommand> = Vec::new();
                cmds.push(CacheCommand::Remove { key: token.to_owned() });
                cmds.push(CacheCommand::Remove { key: Self::make_cache_key(prefix, sess.sqn) });
                proof {
                    assert(commands_view(cmds@) =~= remove_commands(token@, prefix@, sess.sqn));
                }
                Ok(cmds)
            },
            None => Err(ServiceError::Custom(1, "Token失效或非法!".to_owned())),
        }
    }
}

/// Right after a login, the session can be read back under its token and
/// the token under the relation key of the account (tokens never look like
/// relation keys).
pub proof fn lemma_create_then_read(
    m: Map<Seq<char>, StoredView>,
    token: Seq<char>,
    prefix: Seq<char>,
    s: SessionView,
    expire_time: u32,
)
    requires
        token != session_key(prefix, s.sqn),
    ensures
        ({
            let after = apply_commands(m, create_commands(token, prefix, s, expire_time));
            &&& after.dom().contains(token)
            &&& after[token] == StoredView::Session(s)
            &&& after.dom().contains(session_key(prefix, s.sqn))
            &&& after[session_key(prefix, s.sqn)] == StoredView::Text(token)
        }),
{
    let cs = create_commands(token, prefix, s, expire_time);
    assert(cs.drop_first().drop_first() =~= Seq::<CommandView>::empty());
    reveal_with_fuel(apply_commands, 3);
}

/// A new login of an account (its relation key dropped, then a session
/// created under a new token) leaves the relation key naming the new token,
/// whatever it named before.
pub proof fn lemma_relogin_replaces_relation(
    m: Map<Seq<char>, StoredView>,
    token: Seq<char>,
    prefix: Seq<char>,
    s: SessionView,
    expire_time: u32,
)
    requires
        token != session_key(prefix, s.sqn),
    ensures
        ({
            let after = apply_commands(
                m,
                seq![CommandView::Remove { key: session_key(prefix, s.sqn) }] + create_commands(
                    token,
                    prefix,
                    s,
                    expire_time,
                ),
            );
            &&& after.dom().contains(session_key(prefix, s.sqn))
            &&& after[session_key(prefix, s.sqn)] == StoredView::Text(token)
            &&& after.dom().contains(token)
            &&& after[token] == StoredView::Session(s)
        }),
{
    let a = seq![CommandView::Remove { key: session_key(prefix, s.sqn) }];
    let b = create_commands(token, prefix, s, expire_time);
    lemma_apply_commands_concat(m, a, b);
    assert(a.drop_first() =~= Seq::<CommandView>::empty());
    assert(b.drop_first().drop_first() =~= Seq::<CommandView>::empty());
    reveal_with_fuel(apply_commands, 3);
}

/// A session is renewed while at most half of its lifetime has passed
/// since its creation time, and not once more than half of it (plus the
/// rounding second) has passed: loading never renews a session at any time
/// later than `ctime + expire_time / 2`, and always renews it up to then.
pub proof fn lemma_renewal_half_lifetime(ctime: u64, now: u64, expire_time: u32)
    ensures
        now <= ctime ==> renews(ctime, now, expire_time),
        now > ctime && 2 * (now - ctime) <= expire_time ==> renews(ctime, now, expire_time),
        now > ctime && 2 * (now - ctime) > expire_time + 1 ==> !renews(ctime, now, expire_time),
        renews(ctime, now, expire_time) ==> now - ctime <= expire_time,
{
}

/// A logout undoes a login: after the commands of a login and those of the
/// logout of the same token, neither the token nor the relation key of the
/// account is in the cache.
pub proof fn lemma_logout_undoes_login(
    m: Map<Seq<char>, StoredView>,
    token: Seq<char>,
    prefix: Seq<char>,
    s: SessionView,
    expire_time: u32,
)
    ensures
        ({
            let after = apply_commands(
                m,
                create_commands(token, prefix, s, expire_time) + remove_commands(
                    token,
                    prefix,
                    s.sqn,
                ),
            );
            &&& !after.dom().contains(token)
            &&& !after.dom().contains(session_key(prefix, s.sqn))
        }),
{
    let a = create_commands(token, prefix, s, expire_time);
    let b = remove_commands(token, prefix, s.sqn);
    lemma_apply_commands_concat(m, a, b);
    assert(a.drop_first().drop_first() =~= Seq::<CommandView>::empty());
    assert(b.drop_first().drop_first() =~= Seq::<CommandView>::empty());
    reveal_with_fuel(apply_commands, 3);
}

} // verus!
