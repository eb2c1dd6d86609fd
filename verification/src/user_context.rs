//! The identity and environment of the desktop user on whose behalf actions run.
use crate::text::{owned, same_text};
use vstd::prelude::*;

verus! {

/// The user an elevated runner acts for: commands that do not themselves need
/// elevation are run with this user's id, working directory and environment.
/// No variable name occurs twice in the environment.
#[derive(Debug)]
pub struct UserExecutionContext {
    user_id: u32,
    user_name: String,
    current_dir: String,
    environment: Vec<(String, String)>,
}

/// The view of an environment: name and value of each variable, in order.
pub open spec fn env_view(env: Seq<(String, String)>) -> Seq<(Seq<char>, Seq<char>)> {
    env.map_values(|p: (String, String)| (p.0@, p.1@))
}

/// Whether no variable name occurs twice in an environment.
pub open spec fn env_names_distinct(env: Seq<(Seq<char>, Seq<char>)>) -> bool {
    forall|i: int, j: int| 0 <= i < j < env.len() ==> #[trigger] env[i].0 != #[trigger] env[j].0
}

impl View for UserExecutionContext {
    type V = (u32, Seq<char>, Seq<char>, Seq<(Seq<char>, Seq<char>)>);

    closed spec fn view(&self) -> Self::V {
        (self.user_id, self.user_name@, self.current_dir@, env_view(self.environment@))
    }
}

/// Whether `env[j]` is the last entry for its name in `env`.
#[verifier::opaque]
pub open spec fn is_last_of_name(env: Seq<(Seq<char>, Seq<char>)>, j: int) -> bool {
    forall|k: int| j < k < env.len() ==> #[trigger] env[k].0 != env[j].0
}

/// Whether `env` holds, once for each name that `entries` gives a value, the
/// value the last entry for that name gives: what a map built from
/// `entries`, later entries overwriting earlier ones, holds.
pub open spec fn last_values(
    env: Seq<(Seq<char>, Seq<char>)>,
    entries: Seq<(Seq<char>, Seq<char>)>,
) -> bool {
    scanned_from(env, entries, 0)
}

/// `env` after scanning `entries` from the end down to place `from`: the
/// last value of each name met so far, once each.
pub open spec fn scanned_from(
    env: Seq<(Seq<char>, Seq<char>)>,
    entries: Seq<(Seq<char>, Seq<char>)>,
    from: int,
) -> bool {
    &&& env_names_distinct(env)
    &&& forall|i: int|
        #![trigger env[i]]
        0 <= i < env.len() ==> exists|j: int|
            from <= j < entries.len() && #[trigger] entries[j] == env[i] && is_last_of_name(entries, j)
    &&& names_covered(env, entries, from)
}

/// Whether every name of `entries` from place `from` on has an entry in `env`.
pub open spec fn names_covered(
    env: Seq<(Seq<char>, Seq<char>)>,
    entries: Seq<(Seq<char>, Seq<char>)>,
    from: int,
) -> bool {
    forall|j: int| from <= j < entries.len() ==> #[trigger] name_in(env, entries[j].0)
}

/// Whether some entry of `env` has the name `name`.
pub open spec fn name_in(env: Seq<(Seq<char>, Seq<char>)>, name: Seq<char>) -> bool {
    exists|i: int| 0 <= i < env.len() && #[trigger] env[i].0 == name
}

proof fn lemma_scan_new_name(
    env: Seq<(Seq<char>, Seq<char>)>,
    entries: Seq<(Seq<char>, Seq<char>)>,
    from: int,
)
    requires
        0 < from <= entries.len(),
        scanned_from(env, entries, from),
        !name_in(env, entries[from - 1].0),
    ensures
        scanned_from(env.push(entries[from - 1]), entries, from - 1),
{
    let e = entries[from - 1];
    let after = env.push(e);
    assert forall|k: int| from - 1 < k < entries.len() implies #[trigger] entries[k].0 != entries[from - 1].0 by {
        assert(name_in(env, entries[k].0));
    }
    assert(is_last_of_name(entries, from - 1)) by {
        reveal(is_last_of_name);
    }
    assert forall|a: int, b: int| 0 <= a < b < after.len() implies #[trigger] after[a].0 != #[trigger] after[b].0 by {
        assert(after[a] == env[a]);
        if b == env.len() {
            assert(after[b] == e);
            if env[a].0 == e.0 {
                assert(name_in(env, entries[from - 1].0));
            }
        } else {
            assert(after[b] == env[b]);
        }
    }
    assert(env_names_distinct(after));
    assert forall|i: int| #![trigger after[i]] 0 <= i < after.len() implies exists|j: int|
        from - 1 <= j < entries.len() && #[trigger] entries[j] == after[i] && is_last_of_name(entries, j) by {
        if i < env.len() {
            assert(after[i] == env[i]);
            let j = choose|j: int|
                from <= j < entries.len() && #[trigger] entries[j] == env[i] && is_last_of_name(entries, j);
            assert(entries[j] == after[i]);
        } else {
            assert(entries[from - 1] == after[i]);
        }
    }
    assert forall|j: int| from - 1 <= j < entries.len() implies #[trigger] name_in(after, entries[j].0) by {
        if j == from - 1 {
            assert(after[env.len() as int].0 == entries[j].0);
        } else {
            assert(name_in(env, entries[j].0));
            let i = choose|i: int| 0 <= i < env.len() && #[trigger] env[i].0 == entries[j].0;
            assert(after[i] == env[i]);
        }
    }
    assert(names_covered(after, entries, from - 1));
    assert(scanned_from(after, entries, from - 1));
}

proof fn lemma_scan_known_name(
    env: Seq<(Seq<char>, Seq<char>)>,
    entries: Seq<(Seq<char>, Seq<char>)>,
    from: int,
)
    requires
        0 < from <= entries.len(),
        scanned_from(env, entries, from),
        name_in(env, entries[from - 1].0),
    ensures
        scanned_from(env, entries, from - 1),
{
    assert forall|i: int| #![trigger env[i]] 0 <= i < env.len() implies exists|j: int|
        from - 1 <= j < entries.len() && #[trigger] entries[j] == env[i] && is_last_of_name(entries, j) by {
        let j = choose|j: int|
            from <= j < entries.len() && #[trigger] entries[j] == env[i] && is_last_of_name(entries, j);
        assert(entries[j] == env[i]);
    }
}

/// Whether some entry of `env` has the name `name`.
fn has_name(env: &Vec<(String, String)>, name: &str) -> (r: bool)
    ensures
        r == name_in(env_view(env@), name@),
{
    let mut i: usize = 0;
    while i < env.len()
        invariant
            i <= env@.len(),
            forall|k: int| 0 <= k < i ==> #[trigger] env_view(env@)[k].0 != name@,
        decreases env@.len() - i,
    {
        if same_text(env[i].0.as_str(), name) {
            assert(env_view(env@)[i as int].0 == name@);
            return true;
        }
        i = i + 1;
    }
    false
}

impl UserExecutionContext {
    #[verifier::type_invariant]
    spec fn names_distinct(&self) -> bool {
        env_names_distinct(env_view(self.environment@))
    }

    /// The user's numeric id.
    pub fn user_id(&self) -> (r: u32)
        ensures
            r == self@.0,
    {
        self.user_id
    }

    /// The user's login name.
    pub fn user_name(&self) -> (r: &String)
        ensures
            r@ == self@.1,
    {
        &self.user_name
    }

    /// The directory commands run in.
    pub fn current_dir(&self) -> (r: &String)
        ensures
            r@ == self@.2,
    {
        &self.current_dir
    }

    /// The environment variables, each name once.
    pub fn environment(&self) -> (r: &Vec<(String, String)>)
        ensures
            env_view(r@) == self@.3,
            env_names_distinct(self@.3),
    {
        proof {
            use_type_invariant(self);
        }
        &self.environment
    }

    /// The context of a user with the environment that `entries` describe:
    /// for each name, the value of its last entry, as a map built from the
    /// entries would hold.
    pub fn from_parts(
        user_id: u32,
        user_name: String,
        current_dir: String,
        entries: Vec<(String, String)>,
    ) -> (r: Self)
        ensures
            r@.0 == user_id,
            r@.1 == user_name@,
            r@.2 == current_dir@,
            last_values(r@.3, env_view(entries@)),
    {
        let ghost input = env_view(entries@);
        let mut environment: Vec<(String, String)> = Vec::new();
        let mut i: usize = entries.len();
        while i > 0
            invariant
                input == env_view(entries@),
                i <= input.len(),
                scanned_from(env_view(environment@), input, i as int),
            decreases i,
        {
            let name = entries[i - 1].0.clone();
            let value = entries[i - 1].1.clone();
            assert(input[i - 1] == (name@, value@));
            let ghost before = env_view(environment@);
            if !has_name(&environment, name.as_str()) {
                environment.push((name, value));
                proof {
                    assert(env_view(environment@) =~= before.push(input[i - 1]));
                    lemma_scan_new_name(before, input, i as int);
                }
            } else {
                proof {
                    lemma_scan_known_name(before, input, i as int);
                }
            }
            i = i - 1;
        }
        proof {
            assert(scanned_from(env_view(environment@), input, 0));
        }
        UserExecutionContext { user_id, user_name, current_dir, environment }
    }

    /// The context of a user, with the two environment variables that a
    /// user's session services need: the runtime directory and the session
    /// bus address.
    pub fn new(
        user_id: u32,
        user_name: &str,
        current_dir: &str,
        runtime_dir: &str,
        session_bus_address: &str,
    ) -> (r: Self)
        ensures
            r@ == (
                user_id,
                user_name@,
                current_dir@,
                seq![
                    ("XDG_RUNTIME_DIR"@, runtime_dir@),
                    ("DBUS_SESSION_BUS_ADDRESS"@, session_bus_address@),
                ],
            ),
            env_names_distinct(r@.3),
    {
        let mut environment: Vec<(String, String)> = Vec::new();
        environment.push((owned("XDG_RUNTIME_DIR"), owned(runtime_dir)));
        environment.push((owned("DBUS_SESSION_BUS_ADDRESS"), owned(session_bus_address)));
        proof {
            reveal_strlit("XDG_RUNTIME_DIR");
            reveal_strlit("DBUS_SESSION_BUS_ADDRESS");
            assert("XDG_RUNTIME_DIR"@.len() != "DBUS_SESSION_BUS_ADDRESS"@.len());
            assert(env_view(environment@) =~= seq![
                ("XDG_RUNTIME_DIR"@, runtime_dir@),
                ("DBUS_SESSION_BUS_ADDRESS"@, session_bus_address@),
            ]);
        }
        let r = UserExecutionContext {
            user_id,
            user_name: owned(user_name),
            current_dir: owned(current_dir),
            environment,
        };
        assert(env_view(r.environment@) =~= seq![
            ("XDG_RUNTIME_DIR"@, runtime_dir@),
            ("DBUS_SESSION_BUS_ADDRESS"@, session_bus_address@),
        ]);
        proof {
            reveal_strlit("XDG_RUNTIME_DIR");
            reveal_strlit("DBUS_SESSION_BUS_ADDRESS");
            assert("XDG_RUNTIME_DIR"@.len() != "DBUS_SESSION_BUS_ADDRESS"@.len());
        }
        r
    }

    /// A copy of this context.
    pub fn duplicate(&self) -> (r: Self)
        ensures
            r@ == self@,
    {
        let mut environment: Vec<(String, String)> = Vec::new();
        let mut i: usize = 0;
        while i < self.environment.len()
            invariant
                i <= self.environment.len(),
                environment@.len() == i,
                env_view(environment@) == env_view(self.environment@).take(i as int),
            decreases self.environment.len() - i,
        {
            let k = self.environment[i].0.clone();
            let v = self.environment[i].1.clone();
            let ghost prev = environment@;
            assert(k == self.environment@[i as int].0);
            assert(v == self.environment@[i as int].1);
            environment.push((k, v));
            assert forall|j: int| 0 <= j < i + 1 implies #[trigger] env_view(environment@)[j]
                == env_view(self.environment@).take(i + 1)[j] by {
                if j < i {
                    assert(environment@[j] == prev[j]);
                    assert(env_view(prev)[j] == env_view(self.environment@).take(i as int)[j]);
                }
            }
            assert(env_view(environment@) =~= env_view(self.environment@).take(i + 1));
            i = i + 1;
        }
        assert(env_view(self.environment@).take(self.environment.len() as int) =~= env_view(
            self.environment@,
        ));
        proof {
            use_type_invariant(self);
        }
        UserExecutionContext {
            user_id: self.user_id,
            user_name: self.user_name.clone(),
            current_dir: self.current_dir.clone(),
            environment,
        }
    }
}

} // verus!
