//! The maps by which the names of commands and the prefixes of groups are
//! looked up while a message is parsed.

use std::sync::Arc;
use vstd::prelude::*;
use vstd::string::StrSliceExecFns;

verus! {

/// The lower-case form of a text.
pub uninterp spec fn lowercase(text: Seq<char>) -> Seq<char>;

/// Calls `str::to_lowercase`, which maps every character to its lower-case
/// form by the rules of Unicode. The result depends on the text alone; the
/// contract gives it a name.
#[verifier::external_body]
fn to_lowercase(text: &str) -> (lower: String)
    ensures
        lower@ == lowercase(text@),
{
    text.to_lowercase()
}

/// Calls `==` on two texts, which holds exactly when they are made of the
/// same characters.
#[verifier::external_body]
fn same_text(a: &str, b: &str) -> (same: bool)
    ensures
        same == (a@ == b@),
{
    a == b
}

/// How commands are parsed.
#[derive(Clone, Copy, Debug)]
pub struct Configuration {
    /// Whether the names of commands are matched without regard to case.
    pub case_insensitive: bool,
}

/// What a command is known by.
#[derive(Debug)]
pub struct CommandOptions {
    /// The names of the command.
    pub names: Vec<String>,
    /// The commands below this one.
    pub sub_commands: Vec<Command>,
}

/// A command.
#[derive(Debug)]
pub struct Command {
    pub options: CommandOptions,
}

/// What a group of commands is known by.
#[derive(Debug)]
pub struct GroupOptions {
    /// The prefixes of the group.
    pub prefixes: Vec<String>,
    /// The groups below this one.
    pub sub_groups: Vec<CommandGroup>,
    /// The commands of the group.
    pub commands: Vec<Command>,
}

/// A group of commands.
#[derive(Debug)]
pub struct CommandGroup {
    pub name: String,
    pub options: GroupOptions,
}

/// What both maps offer.
pub trait ParseMap {
    /// What is stored under a key.
    type Storage;

    /// The entry under `name`, if there is one.
    fn get(&self, name: &str) -> Option<Self::Storage>;

    /// The least length of a key by which the parser goes: always zero.
    fn min_length(&self) -> usize;

    /// The greatest length of a key, in characters; zero for an empty map.
    fn max_length(&self) -> usize;

    /// Whether the map holds no key.
    fn is_empty(&self) -> bool;
}

/// One name of a command with what is stored under it.
#[derive(Debug)]
pub struct CommandEntry<'a> {
    pub key: String,
    pub command: &'a Command,
    pub sub_map: Arc<CommandMap<'a>>,
}

/// Commands by their names.
#[derive(Debug)]
pub struct CommandMap<'a> {
    cmds: Vec<CommandEntry<'a>>,
    min_length: usize,
    max_length: usize,
}

/// The key under which a name is stored.
pub open spec fn key_of(name: Seq<char>, case_insensitive: bool) -> Seq<char> {
    if case_insensitive {
        lowercase(name)
    } else {
        name
    }
}

/// The greatest length among `keys`, zero if there is none.
pub open spec fn longest(lengths: Seq<nat>) -> nat
    decreases lengths.len(),
{
    if lengths.len() == 0 {
        0
    } else if lengths.last() > longest(lengths.drop_last()) {
        lengths.last()
    } else {
        longest(lengths.drop_last())
    }
}

/// The key of a name as the map stores it.
fn make_key(name: &String, conf: &Configuration) -> (key: String)
    ensures
        key@ == key_of(name@, conf.case_insensitive),
{
    if conf.case_insensitive {
        to_lowercase(name.as_str())
    } else {
        name.clone()
    }
}

impl<'a> CommandMap<'a> {
    /// The keys in the order in which they were stored; a key that was
    /// stored twice stands twice, and the later entry is the one found.
    pub closed spec fn keys(&self) -> Seq<Seq<char>> {
        self.cmds@.map_values(|entry: CommandEntry<'a>| entry.key@)
    }

    /// The commands of the entries, in the order of [`CommandMap::keys`].
    pub closed spec fn commands(&self) -> Seq<Command> {
        self.cmds@.map_values(|entry: CommandEntry<'a>| *entry.command)
    }

    /// The least length of a name by which the parser goes.
    pub closed spec fn spec_min_length(&self) -> usize {
        self.min_length
    }

    /// The greatest length of a name.
    pub closed spec fn spec_max_length(&self) -> usize {
        self.max_length
    }

    /// The map that stands under the entry at `index`.
    pub closed spec fn sub_map(&self, index: int) -> CommandMap<'a> {
        *self.cmds@[index].sub_map
    }

    /// Whether this is the map of `cmds`, at every depth: its keys are the
    /// names of the commands, under each stands its command, the lengths are
    /// as they should be, and the map under each entry is the map of the
    /// commands below the command of the entry.
    pub closed spec fn is_map_of(&self, cmds: Seq<Command>, case_insensitive: bool) -> bool
        decreases self,
    {
        &&& self.keys() == flat_keys(cmds, case_insensitive)
        &&& self.commands() == flat_commands(cmds)
        &&& self.spec_min_length() == 0
        &&& self.spec_max_length() == longest(flat_lengths(cmds))
        &&& forall|k: int|
            0 <= k < self.cmds@.len() ==> (#[trigger] self.cmds@[k]).sub_map.is_map_of(
                self.cmds@[k].command.options.sub_commands@,
                case_insensitive,
            )
    }

    /// The map of `cmds`: every name of every command is a key, stored as it
    /// is or, if case is disregarded, in lower case; under it stand the
    /// command and the map of the commands below it.
    pub fn new(cmds: &'a Vec<Command>, conf: &Configuration) -> (map: Self)
        ensures
            map.is_map_of(cmds@, conf.case_insensitive),
        decreases cmds@,
    {
        let mut map = CommandMap { cmds: Vec::new(), min_length: 0, max_length: 0 };
        let mut i: usize = 0;
        proof {
            assert(cmds@.take(0) =~= Seq::<Command>::empty());
            reveal_with_fuel(flat_keys, 1);
        }
        while i < cmds.len()
            invariant
                i <= cmds@.len(),
                map.keys() == flat_keys(cmds@.take(i as int), conf.case_insensitive),
                map.commands() == flat_commands(cmds@.take(i as int)),
                map.min_length == 0,
                map.max_length == longest(flat_lengths(cmds@.take(i as int))),
                forall|k: int|
                    0 <= k < map.cmds@.len() ==> (#[trigger] map.cmds@[k]).sub_map.is_map_of(
                        map.cmds@[k].command.options.sub_commands@,
                        conf.case_insensitive,
                    ),
            decreases cmds@.len() - i,
        {
            let cmd = &cmds[i];
            proof {
                assert(cmds@.take(i + 1).drop_last() == cmds@.take(i as int));
                assert(cmds@.take(i + 1).last() == cmds@[i as int]);
            }
            let sub_map = Arc::new(Self::new(&cmd.options.sub_commands, conf));
            let names = &cmd.options.names;
            let mut j: usize = 0;
            while j < names.len()
                invariant
                    j <= names@.len(),
                    names == &cmd.options.names,
                    *cmd == cmds@[i as int],
                    i < cmds@.len(),
                    map.keys() == flat_keys(cmds@.take(i as int), conf.case_insensitive)
                        + keys_of(names@.take(j as int), conf.case_insensitive),
                    map.commands() == flat_commands(cmds@.take(i as int)) + Seq::new(
                        j as nat,
                        |k: int| *cmd,
                    ),
                    map.min_length == 0,
                    map.max_length == longest(
                        flat_lengths(cmds@.take(i as int)) + lengths_of(names@.take(j as int)),
                    ),
                    sub_map.is_map_of(cmd.options.sub_commands@, conf.case_insensitive),
                    forall|k: int|
                        0 <= k < map.cmds@.len() ==> (#[trigger] map.cmds@[k]).sub_map.is_map_of(
                            map.cmds@[k].command.options.sub_commands@,
                            conf.case_insensitive,
                        ),
                decreases names@.len() - j,
            {
                let name = &names[j];
                let len = name.as_str().unicode_len();
                let key = make_key(name, conf);
                let ghost before_keys = map.keys();
                let ghost before_commands = map.commands();
                let ghost before_lengths = flat_lengths(cmds@.take(i as int)) + lengths_of(
                    names@.take(j as int),
                );
                if len > map.max_length {
                    map.max_length = len;
                }
                map.cmds.push(
                    CommandEntry { key, command: cmd, sub_map: crate::collector::share(&sub_map) },
                );
                proof {
                    assert(names@.take(j + 1) == names@.take(j as int).push(names@[j as int]));
                    assert(keys_of(names@.take(j + 1), conf.case_insensitive) =~= keys_of(
                        names@.take(j as int),
                        conf.case_insensitive,
                    ).push(key_of(names@[j as int]@, conf.case_insensitive)));
                    assert(map.keys() =~= before_keys.push(key@));
                    assert(map.commands() =~= before_commands.push(*cmd));
                    assert(lengths_of(names@.take(j + 1)) =~= lengths_of(
                        names@.take(j as int),
                    ).push(names@[j as int]@.len()));
                    let now_lengths = flat_lengths(cmds@.take(i as int)) + lengths_of(
                        names@.take(j + 1),
                    );
                    assert(now_lengths =~= before_lengths.push(names@[j as int]@.len()));
                    assert(now_lengths.drop_last() =~= before_lengths);
                }
                j = j + 1;
            }
            proof {
                assert(names@.take(j as int) == names@);
                assert(map.commands() =~= flat_commands(cmds@.take(i + 1)));
            }
            i = i + 1;
        }
        proof {
            assert(cmds@.take(i as int) == cmds@);
        }
        map
    }
}

impl<'a> CommandMap<'a> {
    /// What it means to be the map of a list of commands, one level at a
    /// time.
    pub proof fn lemma_map_of(&self, cmds: Seq<Command>, case_insensitive: bool)
        requires
            self.is_map_of(cmds, case_insensitive),
        ensures
            self.keys() == flat_keys(cmds, case_insensitive),
            self.commands() == flat_commands(cmds),
            self.keys().len() == self.commands().len(),
            self.spec_min_length() == 0,
            self.spec_max_length() == longest(flat_lengths(cmds)),
            forall|k: int|
                0 <= k < self.keys().len() ==> (#[trigger] self.sub_map(k)).is_map_of(
                    self.commands()[k].options.sub_commands@,
                    case_insensitive,
                ),
    {
        assert forall|k: int| 0 <= k < self.keys().len() implies (#[trigger] self.sub_map(
            k,
        )).is_map_of(self.commands()[k].options.sub_commands@, case_insensitive) by {
            assert(self.cmds@[k].sub_map.is_map_of(
                self.cmds@[k].command.options.sub_commands@,
                case_insensitive,
            ));
        }
    }

    /// The place of the entry that is found under `name`: the last one that
    /// was stored under that key.
    pub open spec fn found_at(&self, name: Seq<char>, index: int) -> bool {
        &&& 0 <= index < self.keys().len()
        &&& self.keys()[index] == name
        &&& forall|later: int| index < later < self.keys().len() ==> self.keys()[later] != name
    }
}

impl<'a> ParseMap for CommandMap<'a> {
    type Storage = (&'a Command, Arc<CommandMap<'a>>);

    /// The command that was last stored under `name`, with the map of the
    /// commands below it.
    fn get(&self, name: &str) -> (found: Option<(&'a Command, Arc<CommandMap<'a>>)>)
        ensures
            match found {
                Some((command, sub_map)) => exists|index: int|
                    #[trigger] self.found_at(name@, index) && *command == self.commands()[index]
                        && *sub_map == self.sub_map(index),
                None => !self.keys().contains(name@),
            },
    {
        let mut i: usize = self.cmds.len();
        while i > 0
            invariant
                i <= self.cmds@.len(),
                forall|later: int| i <= later < self.keys().len() ==> self.keys()[later] != name@,
            decreases i,
        {
            i = i - 1;
            let entry = &self.cmds[i];
            if same_text(entry.key.as_str(), name) {
                assert(self.found_at(name@, i as int));
                return Some((entry.command, crate::collector::share(&entry.sub_map)));
            }
        }
        None
    }

    /// The least length of a key by which the parser goes: always the one
    /// that the map was made with, zero.
    fn min_length(&self) -> (length: usize)
        ensures
            length == self.spec_min_length(),
    {
        self.min_length
    }

    /// The greatest length of a name, in characters.
    fn max_length(&self) -> (length: usize)
        ensures
            length == self.spec_max_length(),
    {
        self.max_length
    }

    /// Whether the map holds no key.
    fn is_empty(&self) -> (empty: bool)
        ensures
            empty == (self.keys().len() == 0),
    {
        self.cmds.len() == 0
    }
}

/// The keys of a list of names.
pub open spec fn keys_of(names: Seq<String>, case_insensitive: bool) -> Seq<Seq<char>> {
    names.map_values(|name: String| key_of(name@, case_insensitive))
}

/// The lengths of a list of names, in characters.
pub open spec fn lengths_of(names: Seq<String>) -> Seq<nat> {
    names.map_values(|name: String| name@.len())
}

/// The keys of all names of a list of commands, command by command.
pub open spec fn flat_keys(cmds: Seq<Command>, case_insensitive: bool) -> Seq<Seq<char>>
    decreases cmds.len(),
{
    if cmds.len() == 0 {
        Seq::empty()
    } else {
        flat_keys(cmds.drop_last(), case_insensitive) + keys_of(
            cmds.last().options.names@,
            case_insensitive,
        )
    }
}

/// For each name of each command of a list, the command.
pub open spec fn flat_commands(cmds: Seq<Command>) -> Seq<Command>
    decreases cmds.len(),
{
    if cmds.len() == 0 {
        Seq::empty()
    } else {
        flat_commands(cmds.drop_last()) + Seq::new(
            cmds.last().options.names@.len(),
            |k: int| cmds.last(),
        )
    }
}

/// The lengths of all names of a list of commands, command by command.
pub open spec fn flat_lengths(cmds: Seq<Command>) -> Seq<nat>
    decreases cmds.len(),
{
    if cmds.len() == 0 {
        Seq::empty()
    } else {
        flat_lengths(cmds.drop_last()) + lengths_of(cmds.last().options.names@)
    }
}

/// One prefix of a group with what is stored under it.
#[derive(Debug)]
pub struct GroupEntry<'a> {
    pub key: String,
    pub group: &'a CommandGroup,
    pub subgroups_map: Arc<GroupMap<'a>>,
    pub commands_map: Arc<CommandMap<'a>>,
}

/// Groups by their prefixes.
#[derive(Debug)]
pub struct GroupMap<'a> {
    groups: Vec<GroupEntry<'a>>,
    min_length: usize,
    max_length: usize,
}

/// The prefixes of a list of groups, group by group.
pub open spec fn flat_prefixes(groups: Seq<CommandGroup>) -> Seq<Seq<char>>
    decreases groups.len(),
{
    if groups.len() == 0 {
        Seq::empty()
    } else {
        flat_prefixes(groups.drop_last()) + keys_of(groups.last().options.prefixes@, false)
    }
}

/// For each prefix of each group of a list, the group.
pub open spec fn flat_groups(groups: Seq<CommandGroup>) -> Seq<CommandGroup>
    decreases groups.len(),
{
    if groups.len() == 0 {
        Seq::empty()
    } else {
        flat_groups(groups.drop_last()) + Seq::new(
            groups.last().options.prefixes@.len(),
            |k: int| groups.last(),
        )
    }
}

/// The lengths of all prefixes of a list of groups, group by group.
pub open spec fn flat_prefix_lengths(groups: Seq<CommandGroup>) -> Seq<nat>
    decreases groups.len(),
{
    if groups.len() == 0 {
        Seq::empty()
    } else {
        flat_prefix_lengths(groups.drop_last()) + lengths_of(groups.last().options.prefixes@)
    }
}

impl<'a> GroupMap<'a> {
    /// The prefixes in the order in which they were stored; a prefix that
    /// was stored twice stands twice, and the later entry is the one found.
    pub closed spec fn keys(&self) -> Seq<Seq<char>> {
        self.groups@.map_values(|entry: GroupEntry<'a>| entry.key@)
    }

    /// The groups of the entries, in the order of [`GroupMap::keys`].
    pub closed spec fn groups(&self) -> Seq<CommandGroup> {
        self.groups@.map_values(|entry: GroupEntry<'a>| *entry.group)
    }

    /// The least length of a prefix by which the parser goes.
    pub closed spec fn spec_min_length(&self) -> usize {
        self.min_length
    }

    /// The greatest length of a prefix.
    pub closed spec fn spec_max_length(&self) -> usize {
        self.max_length
    }

    /// The map of groups that stands under the entry at `index`.
    pub closed spec fn subgroups_map(&self, index: int) -> GroupMap<'a> {
        *self.groups@[index].subgroups_map
    }

    /// The map of commands that stands under the entry at `index`.
    pub closed spec fn commands_map(&self, index: int) -> CommandMap<'a> {
        *self.groups@[index].commands_map
    }

    /// Whether this is the map of `groups`, at every depth: its keys are the
    /// prefixes of the groups as they are written, under each stands its
    /// group, the lengths are as they should be, and under each entry stand
    /// the map of the groups below its group and the map of the commands of
    /// its group.
    pub closed spec fn is_map_of(&self, groups: Seq<CommandGroup>, case_insensitive: bool) -> bool
        decreases self,
    {
        &&& self.keys() == flat_prefixes(groups)
        &&& self.groups() == flat_groups(groups)
        &&& self.spec_min_length() == 0
        &&& self.spec_max_length() == longest(flat_prefix_lengths(groups))
        &&& forall|k: int|
            0 <= k < self.groups@.len() ==> (#[trigger] self.groups@[k]).subgroups_map.is_map_of(
                self.groups@[k].group.options.sub_groups@,
                case_insensitive,
            ) && self.groups@[k].commands_map.is_map_of(
                self.groups@[k].group.options.commands@,
                case_insensitive,
            )
    }

    /// What it means to be the map of a list of groups, one level at a time.
    pub proof fn lemma_map_of(&self, groups: Seq<CommandGroup>, case_insensitive: bool)
        requires
            self.is_map_of(groups, case_insensitive),
        ensures
            self.keys() == flat_prefixes(groups),
            self.groups() == flat_groups(groups),
            self.keys().len() == self.groups().len(),
            self.spec_min_length() == 0,
            self.spec_max_length() == longest(flat_prefix_lengths(groups)),
            forall|k: int|
                0 <= k < self.keys().len() ==> (#[trigger] self.subgroups_map(k)).is_map_of(
                    self.groups()[k].options.sub_groups@,
                    case_insensitive,
                ),
            forall|k: int|
                0 <= k < self.keys().len() ==> (#[trigger] self.commands_map(k)).is_map_of(
                    self.groups()[k].options.commands@,
                    case_insensitive,
                ),
    {
        assert forall|k: int| 0 <= k < self.keys().len() implies (#[trigger] self.subgroups_map(
            k,
        )).is_map_of(self.groups()[k].options.sub_groups@, case_insensitive) by {
            assert(self.groups@[k].subgroups_map.is_map_of(
                self.groups@[k].group.options.sub_groups@,
                case_insensitive,
            ));
        }
        assert forall|k: int| 0 <= k < self.keys().len() implies (#[trigger] self.commands_map(
            k,
        )).is_map_of(self.groups()[k].options.commands@, case_insensitive) by {
            assert(self.groups@[k].commands_map.is_map_of(
                self.groups@[k].group.options.commands@,
                case_insensitive,
            ));
        }
    }

    /// The place of the entry that is found under `name`: the last one that
    /// was stored under that key.
    pub open spec fn found_at(&self, name: Seq<char>, index: int) -> bool {
        &&& 0 <= index < self.keys().len()
        &&& self.keys()[index] == name
        &&& forall|later: int| index < later < self.keys().len() ==> self.keys()[later] != name
    }

    /// The map of `groups`: every prefix of every group is a key, stored as
    /// it is written; under it stand the group, the map of the groups below
    /// it and the map of its commands.
    pub fn new(groups: &'a Vec<CommandGroup>, conf: &Configuration) -> (map: Self)
        ensures
            map.is_map_of(groups@, conf.case_insensitive),
        decreases groups@,
    {
        let mut map = GroupMap { groups: Vec::new(), min_length: 0, max_length: 0 };
        let mut i: usize = 0;
        proof {
            assert(groups@.take(0) =~= Seq::<CommandGroup>::empty());
        }
        while i < groups.len()
            invariant
                i <= groups@.len(),
                map.keys() == flat_prefixes(groups@.take(i as int)),
                map.groups() == flat_groups(groups@.take(i as int)),
                map.min_length == 0,
                map.max_length == longest(flat_prefix_lengths(groups@.take(i as int))),
                forall|k: int|
                    0 <= k < map.groups@.len() ==> (#[trigger] map.groups@[k]).subgroups_map.is_map_of(
                        map.groups@[k].group.options.sub_groups@,
                        conf.case_insensitive,
                    ) && map.groups@[k].commands_map.is_map_of(
                        map.groups@[k].group.options.commands@,
                        conf.case_insensitive,
                    ),
            decreases groups@.len() - i,
        {
            let group = &groups[i];
            proof {
                assert(groups@.take(i + 1).drop_last() == groups@.take(i as int));
                assert(groups@.take(i + 1).last() == groups@[i as int]);
            }
            let subgroups_map = Arc::new(Self::new(&group.options.sub_groups, conf));
            let commands_map = Arc::new(CommandMap::new(&group.options.commands, conf));
            let prefixes = &group.options.prefixes;
            let mut j: usize = 0;
            while j < prefixes.len()
                invariant
                    j <= prefixes@.len(),
                    prefixes == &group.options.prefixes,
                    *group == groups@[i as int],
                    i < groups@.len(),
                    map.keys() == flat_prefixes(groups@.take(i as int)) + keys_of(
                        prefixes@.take(j as int),
                        false,
                    ),
                    map.groups() == flat_groups(groups@.take(i as int)) + Seq::new(
                        j as nat,
                        |k: int| *group,
                    ),
                    map.min_length == 0,
                    map.max_length == longest(
                        flat_prefix_lengths(groups@.take(i as int)) + lengths_of(
                            prefixes@.take(j as int),
                        ),
                    ),
                    subgroups_map.is_map_of(group.options.sub_groups@, conf.case_insensitive),
                    commands_map.is_map_of(group.options.commands@, conf.case_insensitive),
                    forall|k: int|
                        0 <= k < map.groups@.len() ==> (#[trigger] map.groups@[k]).subgroups_map.is_map_of(
                            map.groups@[k].group.options.sub_groups@,
                            conf.case_insensitive,
                        ) && map.groups@[k].commands_map.is_map_of(
                            map.groups@[k].group.options.commands@,
                            conf.case_insensitive,
                        ),
                decreases prefixes@.len() - j,
            {
                let prefix = &prefixes[j];
                let len = prefix.as_str().unicode_len();
                let ghost before_keys = map.keys();
                let ghost before_groups = map.groups();
                let ghost before_lengths = flat_prefix_lengths(groups@.take(i as int))
                    + lengths_of(prefixes@.take(j as int));
                if len > map.max_length {
                    map.max_length = len;
                }
                map.groups.push(
                    GroupEntry {
                        key: prefix.clone(),
                        group,
                        subgroups_map: crate::collector::share(&subgroups_map),
                        commands_map: crate::collector::share(&commands_map),
                    },
                );
                proof {
                    assert(prefixes@.take(j + 1) == prefixes@.take(j as int).push(
                        prefixes@[j as int],
                    ));
                    assert(keys_of(prefixes@.take(j + 1), false) =~= keys_of(
                        prefixes@.take(j as int),
                        false,
                    ).push(key_of(prefixes@[j as int]@, false)));
                    assert(map.keys() =~= before_keys.push(prefix@));
                    assert(map.groups() =~= before_groups.push(*group));
                    assert(lengths_of(prefixes@.take(j + 1)) =~= lengths_of(
                        prefixes@.take(j as int),
                    ).push(prefixes@[j as int]@.len()));
                    let now_lengths = flat_prefix_lengths(groups@.take(i as int)) + lengths_of(
                        prefixes@.take(j + 1),
                    );
                    assert(now_lengths =~= before_lengths.push(prefixes@[j as int]@.len()));
                    assert(now_lengths.drop_last() =~= before_lengths);
                }
                j = j + 1;
            }
            proof {
                assert(prefixes@.take(j as int) == prefixes@);
                assert(map.groups() =~= flat_groups(groups@.take(i + 1)));
            }
            i = i + 1;
        }
        proof {
            assert(groups@.take(i as int) == groups@);
        }
        map
    }
}

impl<'a> ParseMap for GroupMap<'a> {
    type Storage = (&'a CommandGroup, Arc<GroupMap<'a>>, Arc<CommandMap<'a>>);

    /// The group that was last stored under the prefix `name`, with the map
    /// of the groups below it and the map of its commands.
    fn get(&self, name: &str) -> (found: Option<
        (&'a CommandGroup, Arc<GroupMap<'a>>, Arc<CommandMap<'a>>),
    >)
        ensures
            match found {
                Some((group, subgroups, commands)) => exists|index: int|
                    #[trigger] self.found_at(name@, index) && *group == self.groups()[index]
                        && *subgroups == self.subgroups_map(index) && *commands
                        == self.commands_map(index),
                None => !self.keys().contains(name@),
            },
    {
        let mut i: usize = self.groups.len();
        while i > 0
            invariant
                i <= self.groups@.len(),
                forall|later: int| i <= later < self.keys().len() ==> self.keys()[later] != name@,
            decreases i,
        {
            i = i - 1;
            let entry = &self.groups[i];
            if same_text(entry.key.as_str(), name) {
                assert(self.found_at(name@, i as int));
                return Some(
                    (
                        entry.group,
                        crate::collector::share(&entry.subgroups_map),
                        crate::collector::share(&entry.commands_map),
                    ),
                );
            }
        }
        None
    }

    /// The least length of a prefix by which the parser goes: always the
    /// one that the map was made with, zero.
    fn min_length(&self) -> (length: usize)
        ensures
            length == self.spec_min_length(),
    {
        self.min_length
    }

    /// The greatest length of a prefix, in characters.
    fn max_length(&self) -> (length: usize)
        ensures
            length == self.spec_max_length(),
    {
        self.max_length
    }

    /// Whether the map holds no prefix.
    fn is_empty(&self) -> (empty: bool)
        ensures
            empty == (self.keys().len() == 0),
    {
        self.groups.len() == 0
    }
}

/// The maps of a parser: groups by their prefixes, and, where groups may go
/// without a prefix, commands by their names.
#[derive(Debug)]
pub enum ParseMaps<'a> {
    WithPrefixes(GroupMap<'a>),
    Prefixless(GroupMap<'a>, CommandMap<'a>),
}


} // verus!
