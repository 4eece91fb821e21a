//! The settings and the text that they are saved as.

use crate::hotkey::{
    key_token, law_hotkey_reads_back, law_the_lowest_four_bits_are_kept, lemma_hotkey_text,
    normalized, parse_hotkey_chars, tokens,
    written_hotkey, Action, Hotkey, MOD_ALT, MOD_CONTROL,
};
use crate::keys::{
    key_name, law_key_name_reads_back, lemma_no_empty_name, nameable, named_vk, VK_ESCAPE,
};
use crate::text::{
    chars_of, decimal, find, is_digit, is_space, is_text, law_number_reads_back, law_split_last,
    lemma_decimal_value, lemma_run_before_is, lemma_split_first, lemma_split_one,
    lemma_trimmed_push, number, parse_number, push_decimal, run_before, split, split_on,
    string_views, trim, trimmed, upper, views,
};
use vstd::prelude::*;
use vstd::slice::slice_subrange;

verus! {

pub struct Settings {
    pub selected_monitor: usize,
    pub toggle_hotkey: Option<Hotkey>,
    /// The entries of the settings file that could not be read.
    pub load_warnings: Vec<String>,
}

/// What [`Settings`] stand for.
#[verifier::ext_equal]
pub struct SettingsView {
    pub selected_monitor: usize,
    pub toggle_hotkey: Option<Hotkey>,
    pub load_warnings: Seq<Seq<char>>,
}

impl View for Settings {
    type V = SettingsView;

    open spec fn view(&self) -> SettingsView {
        SettingsView {
            selected_monitor: self.selected_monitor,
            toggle_hotkey: self.toggle_hotkey,
            load_warnings: string_views(self.load_warnings@),
        }
    }
}

/// The settings before anything was read.
pub open spec fn defaults() -> SettingsView {
    SettingsView { selected_monitor: 0, toggle_hotkey: None, load_warnings: Seq::empty() }
}

/// The name and the value of the entry on a line. Lines without an equals sign, empty
/// lines and comments hold no entry.
pub open spec fn entry(line: Seq<char>) -> Option<(Seq<char>, Seq<char>)> {
    let l = trimmed(line);
    let i = run_before(l, '=') as int;
    if l.len() == 0 || l.first() == '#' || i >= l.len() {
        None
    } else {
        Some((trimmed(l.take(i)), l.skip(i + 1)))
    }
}

impl SettingsView {
    /// The settings once a line of the file was read.
    pub open spec fn read_line(self, line: Seq<char>) -> SettingsView {
        match entry(line) {
            Some((name, value)) => if name == "selected_monitor"@ {
                match number(trimmed(value), usize::MAX as nat) {
                    Some(n) => SettingsView { selected_monitor: n as usize, ..self },
                    None => self,
                }
            } else if name == "toggle_hotkey"@ {
                match written_hotkey(value) {
                    Some(h) => SettingsView { toggle_hotkey: Some(h), ..self },
                    None => SettingsView {
                        load_warnings: self.load_warnings.push("toggle_hotkey"@),
                        ..self
                    },
                }
            } else {
                self
            },
            None => self,
        }
    }

    /// The settings once the lines were read, first to last.
    pub open spec fn read_lines(self, lines: Seq<Seq<char>>) -> SettingsView
        decreases lines.len(),
    {
        if lines.len() == 0 {
            self
        } else {
            self.read_lines(lines.drop_last()).read_line(lines.last())
        }
    }

    /// The bind of an action. That of the emergency unlock is fixed.
    pub open spec fn bind(self, action: Action) -> Option<Hotkey> {
        match action {
            Action::Toggle => self.toggle_hotkey,
            Action::Unlock => Some(
                Hotkey { modifiers: MOD_CONTROL | MOD_ALT, vk: VK_ESCAPE },
            ),
        }
    }

    /// The settings with a new bind for `action`. The fixed bind stays.
    pub open spec fn with_bind(self, action: Action, hotkey: Hotkey) -> SettingsView {
        if action == Action::Toggle {
            SettingsView { toggle_hotkey: Some(hotkey), ..self }
        } else {
            self
        }
    }

    /// The settings where there are `count` monitors: a selection that is none of them
    /// goes back to the first.
    pub open spec fn clamped(self, count: int) -> SettingsView {
        if self.selected_monitor >= count {
            SettingsView { selected_monitor: 0, ..self }
        } else {
            self
        }
    }

    /// The text of the settings file.
    pub open spec fn file_text(self) -> Seq<char> {
        "# screen_locker settings\nselected_monitor="@ + decimal(self.selected_monitor as nat)
            + "\ntoggle_hotkey="@ + match self.toggle_hotkey {
            Some(h) => h.text(),
            None => Seq::empty(),
        } + "\n"@
    }
}

/// The settings that a file with the text `contents` holds. A carriage return before the
/// line feed is white space at the end of its line.
pub open spec fn loaded(contents: Seq<char>) -> SettingsView {
    defaults().read_lines(split_on(contents, '\n'))
}

impl Default for Settings {
    fn default() -> (s: Self)
        ensures
            s@ == defaults(),
    {
        let s: Settings = Settings {
            selected_monitor: 0,
            toggle_hotkey: None,
            load_warnings: Vec::new(),
        };
        assert(s@ =~= defaults());
        s
    }
}

impl Settings {
    /// The settings in the text of the settings file; the defaults where it could not be
    /// read.
    pub fn load(contents: Option<&str>) -> (s: Settings)
        ensures
            contents is None ==> s@ == defaults(),
            contents matches Some(c) ==> s@ == loaded(c@),
    {
        let mut settings: Settings = Settings::default();
        let contents: &str = match contents {
            Some(contents) => contents,
            None => return settings,
        };
        let text: Vec<char> = chars_of(contents);
        let lines: Vec<Vec<char>> = split(text.as_slice(), '\n');
        let ghost ls = split_on(contents@, '\n');
        assert(views(lines@).len() == lines@.len());
        let mut i: usize = 0;
        assert(ls.take(0) =~= Seq::<Seq<char>>::empty());
        while i < lines.len()
            invariant
                i <= lines@.len() == ls.len(),
                views(lines@) == ls,
                settings@ == defaults().read_lines(ls.take(i as int)),
            decreases lines@.len() - i,
        {
            assert(ls[i as int] == lines@[i as int]@);
            assert(ls.take(i + 1).drop_last() =~= ls.take(i as int));
            settings.load_line(lines[i].as_slice());
            i += 1;
        }
        assert(ls.take(i as int) =~= ls);
        settings
    }

    fn load_line(&mut self, raw_line: &[char])
        ensures
            final(self)@ == old(self)@.read_line(raw_line@),
    {
        let line: &[char] = trim(raw_line);
        if line.len() == 0 || line[0] == '#' {
            return;
        }
        let at: usize = find(line, '=');
        if at == line.len() {
            return;
        }
        let key: &[char] = trim(slice_subrange(line, 0, at));
        let value: &[char] = slice_subrange(line, at + 1, line.len());
        assert(line@.subrange(0, at as int) =~= line@.take(at as int));
        assert(value@ =~= line@.skip(at + 1));
        if is_text(key, "selected_monitor") {
            if let Some(index) = parse_number(trim(value), usize::MAX as u64) {
                self.selected_monitor = index as usize;
            }
        } else if is_text(key, "toggle_hotkey") {
            match parse_hotkey_chars(value) {
                Some(hotkey) => {
                    self.toggle_hotkey = Some(hotkey);
                },
                None => {
                    self.load_warnings.push("toggle_hotkey".to_string());
                    assert(string_views(self.load_warnings@) =~= string_views(
                        old(self).load_warnings@,
                    ).push("toggle_hotkey"@));
                },
            }
        }
    }

    /// The text to save.
    pub fn save(&self) -> (contents: String)
        ensures
            contents@ == self@.file_text(),
    {
        let mut contents: String = "# screen_locker settings\nselected_monitor=".to_string();
        push_decimal(&mut contents, self.selected_monitor as u64);
        contents.append("\ntoggle_hotkey=");
        if let Some(hotkey) = self.toggle_hotkey {
            contents.append(hotkey.display().as_str());
        }
        contents.append("\n");
        assert(contents@ =~= self@.file_text());
        contents
    }

    pub fn hotkey(&self, action: Action) -> (h: Option<Hotkey>)
        ensures
            h == self@.bind(action),
    {
        match action {
            Action::Toggle => self.toggle_hotkey,
            Action::Unlock => Some(Hotkey::new(MOD_CONTROL | MOD_ALT, VK_ESCAPE)),
        }
    }

    pub fn set_hotkey(&mut self, action: Action, hotkey: Hotkey)
        ensures
            final(self)@ == old(self)@.with_bind(action, hotkey),
    {
        if action == Action::Toggle {
            self.toggle_hotkey = Some(hotkey);
        }
    }
}

/// The directory that a path starts from.
#[derive(Clone, Copy, PartialEq, Eq, Structural, Debug)]
pub enum ConfigBase {
    /// The directory that `LOCALAPPDATA` names.
    LocalAppData,
    /// The working directory.
    WorkingDirectory,
}

/// Where the settings file is: the names of directories and of the file, below a directory.
pub struct ConfigPath {
    pub base: ConfigBase,
    pub names: Vec<&'static str>,
}

impl ConfigPath {
    pub open spec fn located(self, base: ConfigBase, names: Seq<Seq<char>>) -> bool {
        self.base == base && self.names@.map_values(|n: &'static str| n@) == names
    }
}

/// Where the settings file is, where `local_app_data` says whether `LOCALAPPDATA` is set and
/// `working_directory` whether the working directory is known.
pub fn config_path(local_app_data: bool, working_directory: bool) -> (path: Option<ConfigPath>)
    ensures
        path is Some == (local_app_data || working_directory),
        path matches Some(p) ==> if local_app_data {
            p.located(ConfigBase::LocalAppData, seq!["screen_locker"@, "settings.ini"@])
        } else {
            p.located(ConfigBase::WorkingDirectory, seq!["screen_locker.ini"@])
        },
{
    let mut names: Vec<&'static str> = Vec::new();
    if local_app_data {
        names.push("screen_locker");
        names.push("settings.ini");
        assert(names@.map_values(|n: &'static str| n@) =~= seq![
            "screen_locker"@,
            "settings.ini"@,
        ]);
        Some(ConfigPath { base: ConfigBase::LocalAppData, names })
    } else if working_directory {
        names.push("screen_locker.ini");
        assert(names@.map_values(|n: &'static str| n@) =~= seq!["screen_locker.ini"@]);
        Some(ConfigPath { base: ConfigBase::WorkingDirectory, names })
    } else {
        None
    }
}

/// Where the settings file is written. Where neither directory is known it goes to the
/// working directory, by its name alone.
pub fn save_path(local_app_data: bool, working_directory: bool) -> (path: ConfigPath)
    ensures
        local_app_data ==> path.located(
            ConfigBase::LocalAppData,
            seq!["screen_locker"@, "settings.ini"@],
        ),
        !local_app_data ==> path.located(
            ConfigBase::WorkingDirectory,
            seq!["screen_locker.ini"@],
        ),
{
    match config_path(local_app_data, working_directory) {
        Some(path) => path,
        None => {
            let mut names: Vec<&'static str> = Vec::new();
            names.push("screen_locker.ini");
            assert(names@.map_values(|n: &'static str| n@) =~= seq!["screen_locker.ini"@]);
            ConfigPath { base: ConfigBase::WorkingDirectory, names }
        },
    }
}

/// Sends a selection that is none of `monitor_count` monitors back to the first.
pub fn clamp_selected_monitor(settings: &mut Settings, monitor_count: usize)
    ensures
        final(settings)@ == old(settings)@.clamped(monitor_count as int),
{
    if monitor_count == 0 || settings.selected_monitor >= monitor_count {
        settings.selected_monitor = 0;
    }
}

/// What of a bind can be read back from where it was written.
pub open spec fn surviving(bind: Option<Hotkey>) -> Option<Hotkey> {
    match bind {
        Some(h) => if nameable(h.vk) {
            Some(Hotkey { modifiers: normalized(h.modifiers), vk: h.vk })
        } else {
            None
        },
        None => None,
    }
}

/// A line of the form `name=value`, where neither end of it is white space.
proof fn lemma_entry(name: Seq<char>, value: Seq<char>)
    requires
        name.len() > 0,
        name.first() != '#',
        forall|i: int| 0 <= i < name.len() ==> name[i] != '=' && !is_space(#[trigger] name[i]),
        value.len() > 0 ==> !is_space(value.last()),
    ensures
        entry(name.push('=') + value) == Some((name, value)),
{
    let l = name.push('=') + value;
    assert(l.first() == name[0]);
    assert(!is_space(name[0]));
    assert(l.last() == if value.len() > 0 {
        value.last()
    } else {
        '='
    });
    assert(trimmed(l) == l);
    assert forall|j: int| 0 <= j < name.len() implies l[j] != '=' by {
        assert(l[j] == name[j]);
    }
    lemma_run_before_is(l, '=', name.len() as int);
    assert(l.take(name.len() as int) =~= name);
    assert(l.skip((name.len() + 1) as int) =~= value);
    assert(!is_space(name[name.len() - 1]));
    assert(trimmed(name) == name);
}

/// The lines of the settings file.
proof fn lemma_file_lines(s: SettingsView)
    ensures
        ({
            let value = match s.toggle_hotkey {
                Some(h) => h.text(),
                None => Seq::empty(),
            };
            split_on(s.file_text(), '\n') == seq![
                "# screen_locker settings"@,
                "selected_monitor"@.push('=') + decimal(s.selected_monitor as nat),
                "toggle_hotkey"@.push('=') + value,
                Seq::empty(),
            ]
        }),
{
    let value = match s.toggle_hotkey {
        Some(h) => h.text(),
        None => Seq::empty(),
    };
    let number_text = decimal(s.selected_monitor as nat);
    let l0 = "# screen_locker settings"@;
    let l1 = "selected_monitor"@.push('=') + number_text;
    let l2 = "toggle_hotkey"@.push('=') + value;
    let l3 = Seq::<char>::empty();
    reveal_strlit("# screen_locker settings\nselected_monitor=");
    reveal_strlit("# screen_locker settings");
    reveal_strlit("selected_monitor");
    reveal_strlit("\ntoggle_hotkey=");
    reveal_strlit("toggle_hotkey");
    reveal_strlit("\n");
    assert("# screen_locker settings\nselected_monitor="@ =~= l0.push('\n')
        + "selected_monitor"@.push('='));
    assert("\ntoggle_hotkey="@ =~= seq!['\n'] + "toggle_hotkey"@.push('='));
    assert("\n"@ =~= seq!['\n']);
    assert(s.file_text() =~= l0.push('\n') + (l1.push('\n') + (l2.push('\n') + l3)));
    lemma_decimal_value(s.selected_monitor as nat);
    assert forall|j: int| 0 <= j < l1.len() implies l1[j] != '\n' by {
        if j >= 17 {
            assert(l1[j] == number_text[j - 17]);
            assert(is_digit(number_text[j - 17]));
        }
    }
    if let Some(h) = s.toggle_hotkey {
        lemma_hotkey_text(h);
    }
    assert forall|j: int| 0 <= j < l2.len() implies l2[j] != '\n' by {
        if j >= 14 {
            assert(l2[j] == value[j - 14]);
        }
    }
    lemma_split_one(l3, '\n');
    lemma_split_first(l2, '\n', l3);
    lemma_split_first(l1, '\n', l2.push('\n') + l3);
    lemma_split_first(l0, '\n', l1.push('\n') + (l2.push('\n') + l3));
    assert(split_on(s.file_text(), '\n') =~= seq![l0, l1, l2, l3]);
}

/// Settings that are saved and loaded keep the selection, and the bind where its key has a
/// name, with its four modifiers. Where no bind can be read back there is a warning.
pub proof fn law_settings_read_back(s: SettingsView)
    ensures
        loaded(s.file_text()) == (SettingsView {
            selected_monitor: s.selected_monitor,
            toggle_hotkey: surviving(s.toggle_hotkey),
            load_warnings: if surviving(s.toggle_hotkey) is Some {
                Seq::empty()
            } else {
                seq!["toggle_hotkey"@]
            },
        }),
{
    let value = match s.toggle_hotkey {
        Some(h) => h.text(),
        None => Seq::empty(),
    };
    let number_text = decimal(s.selected_monitor as nat);
    let lines = split_on(s.file_text(), '\n');
    lemma_file_lines(s);
    reveal_strlit("# screen_locker settings");
    reveal_strlit("selected_monitor");
    reveal_strlit("toggle_hotkey");
    assert(trimmed(lines[0]) == lines[0]);
    assert(entry(lines[0]) is None);
    lemma_decimal_value(s.selected_monitor as nat);
    assert(is_digit(number_text[0]));
    assert(is_digit(number_text[number_text.len() - 1]));
    lemma_entry("selected_monitor"@, number_text);
    assert(trimmed(number_text) == number_text);
    law_number_reads_back(s.selected_monitor as nat, usize::MAX as nat);
    match s.toggle_hotkey {
        Some(h) => {
            lemma_hotkey_text(h);
            law_hotkey_reads_back(h);
            assert(value[value.len() - 1] == value.last());
        },
        None => {
            lemma_nothing_written();
        },
    }
    lemma_entry("toggle_hotkey"@, value);
    assert("toggle_hotkey"@.len() != "selected_monitor"@.len());
    assert(entry(lines[3]) is None);
    let d0 = lines.drop_last();
    let d1 = d0.drop_last();
    let d2 = d1.drop_last();
    let d3 = d2.drop_last();
    assert(d3 =~= Seq::<Seq<char>>::empty());
    assert(defaults().read_lines(d3) == defaults());
    assert(d2.last() == lines[0]);
    assert(d1.last() == lines[1]);
    assert(d0.last() == lines[2]);
    assert(defaults().read_lines(d2) == defaults());
    let r2 = defaults().read_lines(d1);
    assert(r2 == (SettingsView { selected_monitor: s.selected_monitor, ..defaults() }));
    assert(defaults().read_lines(d0) == r2.read_line(lines[2]));
    assert(loaded(s.file_text()) =~= r2.read_line(lines[2]));
}

/// An empty text writes no bind.
proof fn lemma_nothing_written()
    ensures
        written_hotkey(Seq::empty()) is None,
{
    let e = Seq::<char>::empty();
    lemma_split_one(e, '+');
    assert(tokens(e) =~= seq![e]);
    assert(upper(e) =~= e);
    lemma_no_empty_name();
    reveal_strlit("CTRL");
    reveal_strlit("CONTROL");
    reveal_strlit("ALT");
    reveal_strlit("SHIFT");
    reveal_strlit("WIN");
    reveal_strlit("WINDOWS");
    assert(key_token(tokens(e)) == Some(e));
}

/// A carriage return at the end of a line changes nothing.
pub proof fn law_carriage_return_does_not_matter(s: SettingsView, line: Seq<char>)
    ensures
        s.read_line(line.push('\r')) == s.read_line(line),
{
    lemma_trimmed_push(line, '\r');
}

/// A selection that is one of the monitors stays, and any other goes back to the first. Nothing
/// else changes.
pub proof fn law_a_selection_stays_where_it_can(s: SettingsView, count: int)
    ensures
        s.selected_monitor < count ==> s.clamped(count) == s,
        s.selected_monitor >= count ==> s.clamped(count) == (SettingsView {
            selected_monitor: 0,
            ..s
        }),
{
}

/// A bind that was set is the bind, and nothing else changes. That of the emergency unlock is
/// Control, Alt and Escape and cannot be set.
pub proof fn law_a_bind_that_was_set_is_the_bind(s: SettingsView, hotkey: Hotkey)
    ensures
        s.with_bind(Action::Toggle, hotkey).bind(Action::Toggle) == Some(hotkey),
        s.with_bind(Action::Toggle, hotkey).selected_monitor == s.selected_monitor,
        s.with_bind(Action::Toggle, hotkey).load_warnings == s.load_warnings,
        s.with_bind(Action::Unlock, hotkey) == s,
        s.bind(Action::Toggle) == s.toggle_hotkey,
        s.bind(Action::Unlock) == Some(Hotkey { modifiers: 3, vk: 27 }),
{
    assert(MOD_CONTROL | MOD_ALT == 3u32) by (bit_vector);
}

/// Lines that are empty, comments, or without an equals sign change nothing.
pub proof fn law_lines_without_an_entry_change_nothing(s: SettingsView, line: Seq<char>)
    requires
        trimmed(line).len() == 0 || trimmed(line)[0] == '#' || forall|i: int|
            0 <= i < trimmed(line).len() ==> trimmed(line)[i] != '=',
    ensures
        s.read_line(line) == s,
{
    let l = trimmed(line);
    if l.len() > 0 && l[0] != '#' {
        lemma_run_before_is(l, '=', l.len() as int);
    }
}

/// The first equals sign of a line splits it into a name and a value. A number for the
/// selection is taken, and anything else for it is passed over. A bind is taken, and anything
/// else for it is warned of. Other names change nothing.
pub proof fn law_an_entry_changes_what_it_names(
    s: SettingsView,
    line: Seq<char>,
    name: Seq<char>,
    value: Seq<char>,
)
    requires
        trimmed(line) == name.push('=') + value,
        forall|i: int| 0 <= i < name.len() ==> name[i] != '=',
        name.len() > 0 ==> name[0] != '#',
    ensures
        trimmed(name) == "selected_monitor"@ && number(trimmed(value), usize::MAX as nat) is Some
            ==> s.read_line(line) == (SettingsView {
            selected_monitor: number(trimmed(value), usize::MAX as nat)->0 as usize,
            ..s
        }),
        trimmed(name) == "selected_monitor"@ && number(trimmed(value), usize::MAX as nat) is None
            ==> s.read_line(line) == s,
        trimmed(name) == "toggle_hotkey"@ && written_hotkey(value) is Some ==> s.read_line(line)
            == (SettingsView { toggle_hotkey: written_hotkey(value), ..s }),
        trimmed(name) == "toggle_hotkey"@ && written_hotkey(value) is None ==> s.read_line(line)
            == (SettingsView { load_warnings: s.load_warnings.push("toggle_hotkey"@), ..s }),
        trimmed(name) != "selected_monitor"@ && trimmed(name) != "toggle_hotkey"@ ==> s.read_line(
            line,
        ) == s,
{
    let l = trimmed(line);
    assert forall|j: int| 0 <= j < name.len() implies l[j] != '=' by {
        assert(l[j] == name[j]);
    }
    assert(l[name.len() as int] == '=');
    lemma_run_before_is(l, '=', name.len() as int);
    assert(l.take(name.len() as int) =~= name);
    assert(l.skip((name.len() + 1) as int) =~= value);
    if name.len() > 0 {
        assert(l[0] == name[0]);
    }
    reveal_strlit("selected_monitor");
    reveal_strlit("toggle_hotkey");
    assert("selected_monitor"@.len() != "toggle_hotkey"@.len());
}

/// A file is read line by line: one more line changes what the file before it gave as that line
/// says. An empty file gives the first monitor, no bind and no warning.
pub proof fn law_a_file_is_read_line_by_line(contents: Seq<char>, line: Seq<char>)
    requires
        forall|i: int| 0 <= i < line.len() ==> line[i] != '\n',
    ensures
        loaded(contents.push('\n') + line) == loaded(contents).read_line(line),
        loaded(line) == defaults().read_line(line),
        loaded(Seq::empty()) == defaults(),
        defaults().selected_monitor == 0,
        defaults().toggle_hotkey is None,
        defaults().load_warnings.len() == 0,
{
    let ls = split_on(contents, '\n');
    let e = Seq::<char>::empty();
    law_split_last(contents, '\n', line);
    assert(ls.push(line).drop_last() =~= ls);
    lemma_split_one(line, '\n');
    assert(seq![line].drop_last() =~= Seq::<Seq<char>>::empty());
    assert(defaults().read_lines(seq![line].drop_last()) == defaults());
    lemma_split_one(e, '\n');
    assert(seq![e].drop_last() =~= Seq::<Seq<char>>::empty());
    assert(defaults().read_lines(seq![e].drop_last()) == defaults());
    assert(seq![e].last() == e);
    law_lines_without_an_entry_change_nothing(defaults(), e);
}

/// What settings stand for shows all of their parts, and a path is what its names say.
pub proof fn law_settings_show_their_parts(
    s: Settings,
    p: ConfigPath,
    base: ConfigBase,
    names: Seq<Seq<char>>,
)
    ensures
        s@.selected_monitor == s.selected_monitor,
        s@.toggle_hotkey == s.toggle_hotkey,
        s@.load_warnings == string_views(s.load_warnings@),
        p.located(base, names) ==> p.base == base && p.names@.len() == names.len(),
        p.located(base, names) ==> forall|i: int|
            0 <= i < names.len() ==> (#[trigger] p.names@[i])@ == names[i],
{
    if p.located(base, names) {
        assert forall|i: int| 0 <= i < names.len() implies (#[trigger] p.names@[i])@ == names[i] by {
            assert(p.names@.map_values(|n: &'static str| n@)[i] == p.names@[i]@);
        }
    }
}

/// What of a bind is read back: its key and its four modifiers, for each key that a name reads
/// back as.
pub proof fn law_what_of_a_bind_survives(h: Hotkey)
    ensures
        surviving(None) is None,
        named_vk(key_name(h.vk)) == Some(h.vk) ==> surviving(Some(h)) == Some(
            Hotkey { modifiers: h.modifiers & 15u32, vk: h.vk },
        ),
        named_vk(key_name(h.vk)) != Some(h.vk) ==> surviving(Some(h)) is None,
{
    law_key_name_reads_back(h.vk);
    law_the_lowest_four_bits_are_kept(h.modifiers);
}

/// The settings file has a line that is a comment, a line for the selection, counted from zero,
/// and a line for the bind, which is empty behind its name where there is none.
pub proof fn law_lines_of_the_settings_file(s: SettingsView)
    ensures
        ({
            let lines = split_on(s.file_text(), '\n');
            &&& lines.len() == 4
            &&& lines[0] == "# screen_locker settings"@
            &&& lines[1] == "selected_monitor"@.push('=') + decimal(s.selected_monitor as nat)
            &&& s.toggle_hotkey matches Some(h) ==> lines[2] == "toggle_hotkey"@.push('=')
                + h.text()
            &&& s.toggle_hotkey is None ==> lines[2] == "toggle_hotkey"@.push('=')
            &&& lines[3].len() == 0
        }),
{
    lemma_file_lines(s);
    assert("toggle_hotkey"@.push('=') + Seq::<char>::empty() =~= "toggle_hotkey"@.push('='));
}

} // verus!
