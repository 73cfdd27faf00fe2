//! The command registry: built-in command specs, plus user overrides.

use vstd::prelude::*;
use crate::spec::{
    CommandForm, CommandSpec, KwargSpec, NArgs, SpecMetadata, find_key, has_ascii_uppercase,
    has_upper, key_index, spec_wf,
};
use crate::overrides::{
    command_overrides_model, commands_model, full_spec_of, keeps_whole, key_pos, lemma_key_pos,
    lemma_key_pos_same_keys, merge_spec, merged_commands, model_wf, norm_commands, norm_spec_commands,
    normalize_commands, normalize_overrides,
    spec_model, spec_override_model, unique_keys, whole_override, SpecModel, SpecOverrideModel,
};
use crate::spec::{CommandSpecOverride, SpecFile, SpecOverrideFile};
use crate::text::{lower_seq, owned, to_lower};
use crate::builtins::builtin_table;

verus! {

broadcast use vstd::string::group_string_axioms;

/// Command specs keyed by lowercase command name, with a permissive
/// fallback for unknown commands.
#[derive(Debug)]
pub struct CommandRegistry {
    metadata: SpecMetadata,
    commands: Vec<(String, CommandSpec)>,
    fallback: CommandSpec,
}

/// The permissive spec used for unknown commands: any number of positional
/// arguments, no keywords, no flags.
pub open spec fn is_fallback_spec(s: CommandSpec) -> bool {
    s matches CommandSpec::Single(f) && f.pargs == NArgs::ZeroOrMore && f.kwargs@.len() == 0
        && f.flags@.len() == 0 && f.layout is None
}

impl CommandRegistry {
    #[verifier::type_invariant]
    closed spec fn wf(self) -> bool {
        &&& forall|i: int| 0 <= i < self.commands@.len() ==> spec_wf(#[trigger] self.commands@[i].1)
        &&& is_fallback_spec(self.fallback)
    }

    /// The spec a command name selects: the entry with that name, else
    /// (when the name has uppercase letters) the entry with its lowercase
    /// form, else the fallback.
    pub closed spec fn lookup(self, name: Seq<char>) -> CommandSpec {
        match key_index(self.commands@, name) {
            Some(i) => self.commands@[i].1,
            None => if !has_upper(name) {
                self.fallback
            } else {
                match key_index(self.commands@, lower_seq(name)) {
                    Some(i) => self.commands@[i].1,
                    None => self.fallback,
                }
            },
        }
    }

    /// Whether a command name is known, case-insensitively as [`Self::lookup`].
    pub closed spec fn knows(self, name: Seq<char>) -> bool {
        key_index(self.commands@, name) is Some || (has_upper(name) && key_index(
            self.commands@,
            lower_seq(name),
        ) is Some)
    }

    /// The audited CMake version.
    pub closed spec fn version(self) -> Seq<char> {
        self.metadata.cmake_version@
    }

    /// Get the command spec for `command_name`, falling back to a permissive
    /// default when the command is unknown.
    pub fn get(&self, command_name: &str) -> (r: &CommandSpec)
        ensures
            *r == self.lookup(command_name@),
            spec_wf(*r),
            !self.knows(command_name@) ==> is_fallback_spec(*r),
    {
        proof {
            use_type_invariant(self);
            crate::spec::lemma_key_index_in_range(self.commands@, command_name@);
            crate::spec::lemma_key_index_in_range(self.commands@, lower_seq(command_name@));
        }
        let _n = self.commands.len();
        if let Some(i) = find_key(&self.commands, command_name) {
            return &self.commands[i].1;
        }
        if !has_ascii_uppercase(command_name) {
            return &self.fallback;
        }
        let lower = to_lower(command_name);
        match find_key(&self.commands, lower.as_str()) {
            Some(i) => &self.commands[i].1,
            None => &self.fallback,
        }
    }

    /// Whether the command is present in the registry.
    pub fn contains_builtin(&self, command_name: &str) -> (r: bool)
        ensures
            r == self.knows(command_name@),
    {
        if find_key(&self.commands, command_name).is_some() {
            return true;
        }
        if !has_ascii_uppercase(command_name) {
            return false;
        }
        let lower = to_lower(command_name);
        find_key(&self.commands, lower.as_str()).is_some()
    }

    /// The upstream CMake version the built-in spec was audited against.
    pub fn audited_cmake_version(&self) -> (r: &str)
        ensures
            r@ == self.version(),
    {
        self.metadata.cmake_version.as_str()
    }

    /// The built-in registry.
    pub fn builtins() -> (r: Self)
        ensures
            r.version() == "4.3.1"@,
            r.commands_view() == builtin_table(),
            r.default_fallback(),
    {
        let metadata = SpecMetadata {
            cmake_version: owned("4.3.1"),
            audited_at: String::new(),
            notes: String::new(),
        };
        let fallback = CommandSpec::Single(CommandForm::default());
        CommandRegistry { metadata, commands: crate::builtins::builtin_commands(), fallback }
    }

    /// Build a registry from a spec file: command names in ASCII lowercase;
    /// discriminators, keywords and flags in ASCII uppercase; a repeated
    /// name keeps its first place and takes the later spec; unknown
    /// commands get the permissive fallback.
    pub fn from_spec_file(spec_file: SpecFile) -> (r: Self)
        requires
            forall|i: int|
                0 <= i < norm_spec_commands(commands_model(spec_file.commands@), Seq::empty()).len() ==> model_wf(
                    #[trigger] norm_spec_commands(commands_model(spec_file.commands@), Seq::empty())[i].1,
                ),
        ensures
            r.version() == spec_file.metadata.cmake_version@,
            r.commands_view() == norm_spec_commands(commands_model(spec_file.commands@), Seq::empty()),
            r.default_fallback(),
    {
        let commands = normalize_commands(&spec_file.commands);
        proof {
            assert forall|i: int| 0 <= i < commands@.len() implies spec_wf(#[trigger] commands@[i].1) by {
                crate::overrides::lemma_spec_wf_model(commands@[i].1);
                assert(commands_model(commands@)[i].1 == spec_model(commands@[i].1));
            }
        }
        let fallback = CommandSpec::Single(CommandForm::default());
        CommandRegistry { metadata: spec_file.metadata, commands, fallback }
    }

    /// Load the built-in registry.
    pub fn load() -> (r: crate::error::Result<Self>)
        ensures
            r matches Ok(reg) && reg.version() == "4.3.1"@ && reg.commands_view() == builtin_table()
                && reg.default_fallback(),
    {
        Ok(Self::builtins())
    }

    /// Whether unknown commands get the permissive default spec.
    pub closed spec fn default_fallback(self) -> bool {
        is_fallback_spec(self.fallback)
    }

    /// The command specs in order, as values.
    pub closed spec fn commands_view(self) -> Seq<(Seq<char>, SpecModel)> {
        commands_model(self.commands@)
    }

    /// Whether merging the overrides of a file keeps every spec able to
    /// select a form.
    pub open spec fn accepts(self, file: SpecOverrideFile) -> bool {
        keeps_whole(self.commands_view(), norm_commands(command_overrides_model(file.commands@), Seq::empty()))
    }

    /// Whether merging the overrides of a file keeps every spec able to
    /// select a form: an override without forms and fallback only merges
    /// into a discriminated command.
    pub fn accepts_overrides(&self, file: &SpecOverrideFile) -> (r: bool)
        ensures
            r == self.accepts(*file),
    {
        let norm = normalize_overrides(file);
        let ghost ov = command_overrides_model(norm.commands@);
        let ghost cm = self.commands_view();
        let mut j: usize = 0;
        while j < norm.commands.len()
            invariant
                j <= norm.commands@.len(),
                ov == command_overrides_model(norm.commands@),
                ov == norm_commands(command_overrides_model(file.commands@), Seq::empty()),
                cm == commands_model(self.commands@),
                forall|k: int| 0 <= k < j ==> whole_override(#[trigger] ov[k].1) || match key_pos(cm, ov[k].0) {
                    Some(i) => cm[i].1 is Discriminated && ov[k].1 is Discriminated,
                    None => false,
                },
            decreases norm.commands@.len() - j,
        {
            let entry = &norm.commands[j];
            let whole = match &entry.1 {
                CommandSpecOverride::Single(_) => true,
                CommandSpecOverride::Discriminated { forms, fallback } => forms.len() > 0 || fallback.is_some(),
            };
            if !whole {
                let ghost key = entry.0@;
                proof {
                    lemma_key_pos_same_keys(cm, self.commands@, key);
                    crate::spec::lemma_key_index_bounds(self.commands@, key);
                }
                let _n = self.commands.len();
                let ok = match find_key(&self.commands, entry.0.as_str()) {
                    Some(i) => {
                        assert(key_pos(cm, key) == Some(i as int));
                        match &self.commands[i].1 {
                            CommandSpec::Discriminated { .. } => true,
                            CommandSpec::Single(_) => false,
                        }
                    },
                    None => false,
                };
                if !ok {
                    proof {
                        assert(ov[j as int] == (entry.0@, spec_override_model(entry.1)));
                        assert(!whole_override(ov[j as int].1));
                        assert(!(whole_override(ov[j as int].1) || match key_pos(cm, ov[j as int].0) {
                            Some(i) => cm[i].1 is Discriminated && ov[j as int].1 is Discriminated,
                            None => false,
                        }));
                    }
                    return false;
                }
            }
            j += 1;
        }
        true
    }

    /// Merge the command overrides of a file into the registry, after
    /// normalising them: a command that exists merges with its override, a
    /// new one is added at the end.
    pub fn merge_overrides(&mut self, file: &SpecOverrideFile)
        requires
            old(self).accepts(*file),
        ensures
            final(self).commands_view() == merged_commands(
                old(self).commands_view(),
                norm_commands(command_overrides_model(file.commands@), Seq::empty()),
            ),
            final(self).version() == old(self).version(),
    {
        proof {
            use_type_invariant(&*self);
        }
        let norm = normalize_overrides(file);
        let ghost ov = command_overrides_model(norm.commands@);
        proof {
            crate::overrides::lemma_norm_commands_unique(command_overrides_model(file.commands@), Seq::empty());
        }
        let mut cmds: Vec<(String, CommandSpec)> = Vec::new();
        std::mem::swap(&mut cmds, &mut self.commands);
        let ghost start = commands_model(cmds@);
        assert(ov.subrange(0, ov.len() as int) =~= ov);
        let mut j: usize = 0;
        while j < norm.commands.len()
            invariant
                j <= norm.commands@.len(),
                ov == command_overrides_model(norm.commands@),
                unique_keys(ov),
                keeps_whole(start, ov),
                forall|i: int| 0 <= i < cmds@.len() ==> spec_wf(#[trigger] cmds@[i].1),
                merged_commands(start, ov) == merged_commands(commands_model(cmds@), ov.subrange(j as int, ov.len() as int)),
                forall|k: int|
                    j <= k < ov.len() ==> key_pos(commands_model(cmds@), #[trigger] ov[k].0) == key_pos(start, ov[k].0),
                forall|k: int|
                    j <= k < ov.len() ==> (key_pos(start, #[trigger] ov[k].0) matches Some(i) ==> commands_model(cmds@)[i].1 == start[i].1),
            decreases norm.commands@.len() - j,
        {
            let ghost rest = ov.subrange(j as int, ov.len() as int);
            assert(rest.drop_first() =~= ov.subrange(j + 1, ov.len() as int));
            assert(rest[0] == ov[j as int]);
            let ghost cur = commands_model(cmds@);
            let ghost key = ov[j as int].0;
            proof {
                lemma_key_pos_same_keys(cur, cmds@, key);
                crate::spec::lemma_key_index_bounds(cmds@, key);
                lemma_key_pos(cur, key);
            }
            let _n = cmds.len();
            let found = find_key(&cmds, norm.commands[j].0.as_str());
            match found {
                Some(i) => {
                    assert(key_pos(cur, key) == Some(i as int));
                    let ghost pre = cmds@;
                    let (k, v) = cmds.remove(i);
                    proof {
                        crate::overrides::lemma_spec_wf_model(v);
                        crate::overrides::lemma_merged_spec_wf(spec_model(v), ov[j as int].1);
                    }
                    let nv = merge_spec(v, &norm.commands[j].1);
                    proof {
                        crate::overrides::lemma_spec_wf_model(nv);
                    }
                    cmds.insert(i, (k, nv));
                    assert(cmds@ =~= pre.update(i as int, (k, nv)));
                    assert(commands_model(cmds@) =~= cur.update(i as int, (key, spec_model(nv))));
                    proof {
                        assert forall|k2: int| j + 1 <= k2 < ov.len() implies key_pos(commands_model(cmds@), #[trigger] ov[k2].0) == key_pos(start, ov[k2].0) by {
                            crate::overrides::lemma_same_keys_same_pos(commands_model(cmds@), cur, ov[k2].0);
                        }
                        assert forall|k2: int| j + 1 <= k2 < ov.len() implies (key_pos(start, #[trigger] ov[k2].0) matches Some(i2) ==> commands_model(cmds@)[i2].1 == start[i2].1) by {
                            if key_pos(start, ov[k2].0) is Some {
                                let i2 = key_pos(start, ov[k2].0)->0;
                                lemma_key_pos(cur, ov[k2].0);
                                assert(ov[k2].0 != key);
                            }
                        }
                    }
                },
                None => {
                    assert(key_pos(cur, key) is None);
                    let ghost pre = cmds@;
                    let full = full_spec_of(&norm.commands[j].1);
                    proof {
                        crate::overrides::lemma_spec_wf_model(full);
                        crate::overrides::lemma_full_spec_wf(ov[j as int].1);
                    }
                    let k = owned(norm.commands[j].0.as_str());
                    cmds.push((k, full));
                    assert(commands_model(cmds@) =~= cur.push((key, spec_model(full))));
                    proof {
                        assert forall|k2: int| j + 1 <= k2 < ov.len() implies key_pos(commands_model(cmds@), #[trigger] ov[k2].0) == key_pos(start, ov[k2].0) by {
                            crate::overrides::lemma_key_pos_push_other(cur, (key, spec_model(full)), ov[k2].0);
                        }
                        assert forall|k2: int| j + 1 <= k2 < ov.len() implies (key_pos(start, #[trigger] ov[k2].0) matches Some(i2) ==> commands_model(cmds@)[i2].1 == start[i2].1) by {
                            if key_pos(start, ov[k2].0) is Some {
                                lemma_key_pos(cur, ov[k2].0);
                            }
                        }
                    }
                },
            }
            j += 1;
        }
        assert(ov.subrange(ov.len() as int, ov.len() as int) =~= Seq::<(Seq<char>, SpecOverrideModel)>::empty());
        self.commands = cmds;
    }
}

/// Whether a registry is the built-in one: its version, its command table
/// and its fallback.
pub open spec fn is_builtin_registry(reg: CommandRegistry) -> bool {
    reg.version() == "4.3.1"@ && reg.commands_view() == builtin_table() && reg.default_fallback()
}

/// Registries with the same command table, as values, and the default
/// fallback select specs with the same values for every command name.
pub proof fn lemma_lookup_same_model(r1: CommandRegistry, r2: CommandRegistry, name: Seq<char>)
    requires
        r1.commands_view() == r2.commands_view(),
        r1.default_fallback(),
        r2.default_fallback(),
    ensures
        spec_model(r1.lookup(name)) == spec_model(r2.lookup(name)),
{
    let (a, b) = (r1.commands@, r2.commands@);
    assert(commands_model(a).len() == a.len() && commands_model(b).len() == b.len());
    assert forall|j: int| 0 <= j < a.len() implies #[trigger] a[j].0@ == b[j].0@ by {
        assert(commands_model(a)[j] == commands_model(b)[j]);
    }
    crate::spec::lemma_key_index_same_keys(a, b, name);
    crate::spec::lemma_key_index_same_keys(a, b, lower_seq(name));
    crate::spec::lemma_key_index_bounds(a, name);
    crate::spec::lemma_key_index_bounds(a, lower_seq(name));
    if let Some(i) = key_index(a, name) {
        assert(commands_model(a)[i] == commands_model(b)[i]);
    }
    if let Some(i) = key_index(a, lower_seq(name)) {
        assert(commands_model(a)[i] == commands_model(b)[i]);
    }
    match (r1.fallback, r2.fallback) {
        (CommandSpec::Single(f), CommandSpec::Single(g)) => {
            assert(crate::overrides::kwargs_model(f.kwargs@) =~= crate::overrides::kwargs_model(g.kwargs@));
            assert(crate::text::strs(f.flags@) =~= crate::text::strs(g.flags@));
        },
        _ => {},
    }
}

} // verus!
