//! Keys of the key-value cache, the commands the service sends to it, and
//! a model of what the cache holds after a run of commands.
use vstd::prelude::*;
use vstd::string::*;
use crate::session::{Session, SessionView};

verus! {

/// Key under which a value of `domain` is cached: `domain/key`.
pub fn make_cache_key(domain: &str, key: &str) -> (res: String)
    ensures
        res@ == domain@ + seq!['/'] + key@,
{
    let mut s = domain.to_owned();
    s.append("/");
    s.append(key);
    proof {
        reveal_strlit("/");
    }
    s
}

/// A value the service stores: a text, or a session (stored as its JSON text).
pub enum CacheValue {
    Text(String),
    Session(Session),
}

/// A command for the cache: store a value, which expires after the given
/// number of seconds if one is given, or remove a key.
pub enum CacheCommand {
    Store { key: String, value: CacheValue, expire: Option<u32> },
    Remove { key: String },
}

/// What a stored value holds.
pub enum StoredView {
    Text(Seq<char>),
    Session(SessionView),
}

/// What a command asks for.
pub enum CommandView {
    Store { key: Seq<char>, value: StoredView, expire: Option<u32> },
    Remove { key: Seq<char> },
}

impl View for CacheValue {
    type V = StoredView;

    open spec fn view(&self) -> StoredView {
        match self {
            CacheValue::Text(t) => StoredView::Text(t@),
            CacheValue::Session(s) => StoredView::Session(s@),
        }
    }
}

impl View for CacheCommand {
    type V = CommandView;

    open spec fn view(&self) -> CommandView {
        match self {
            CacheCommand::Store { key, value, expire } => CommandView::Store {
                key: key@,
                value: value@,
                expire: *expire,
            },
            CacheCommand::Remove { key } => CommandView::Remove { key: key@ },
        }
    }
}

/// The views of a run of commands.
pub open spec fn commands_view(cmds: Seq<CacheCommand>) -> Seq<CommandView> {
    cmds.map_values(|c: CacheCommand| c@)
}

/// The cache after one command, expiry aside.
pub open spec fn apply_command(m: Map<Seq<char>, StoredView>, c: CommandView) -> Map<
    Seq<char>,
    StoredView,
> {
    match c {
        CommandView::Store { key, value, expire } => m.insert(key, value),
        CommandView::Remove { key } => m.remove(key),
    }
}

/// The cache after a run of commands, one after the other, expiry aside.
pub open spec fn apply_commands(m: Map<Seq<char>, StoredView>, cs: Seq<CommandView>) -> Map<
    Seq<char>,
    StoredView,
>
    decreases cs.len(),
{
    if cs.len() == 0 {
        m
    } else {
        apply_commands(apply_command(m, cs[0]), cs.drop_first())
    }
}

/// Running two runs of commands one after the other is running their concatenation.
pub proof fn lemma_apply_commands_concat(
    m: Map<Seq<char>, StoredView>,
    a: Seq<CommandView>,
    b: Seq<CommandView>,
)
    ensures
        apply_commands(m, a + b) == apply_commands(apply_commands(m, a), b),
    decreases a.len(),
{
    if a.len() == 0 {
        assert(a + b =~= b);
    } else {
        assert((a + b).drop_first() =~= a.drop_first() + b);
        assert((a + b)[0] == a[0]);
        lemma_apply_commands_concat(apply_command(m, a[0]), a.drop_first(), b);
    }
}

} // verus!
