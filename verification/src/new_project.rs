//! The "New project" dialog: the name and location it proposes, and what it
//! hands over when a project is created.

use vstd::prelude::*;

use crate::asset::ParticleSystemDimension;
use crate::text::{
    chars_of, decimal_chars, decimal_spec, extend_chars, is_alphanumeric, is_alphanumeric_char,
    is_blank, is_blank_chars, lowercase, string_from_chars, to_lowercase,
};

verus! {

/// "projects", the directory new projects are created in by default.
pub open spec fn default_projects_dir_spec() -> Seq<char> {
    seq!['p', 'r', 'o', 'j', 'e', 'c', 't', 's']
}

/// "Untitled project", the name of the first untitled project.
pub open spec fn default_project_name_spec() -> Seq<char> {
    seq!['U', 'n', 't', 'i', 't', 'l', 'e', 'd', ' ', 'p', 'r', 'o', 'j', 'e', 'c', 't']
}

/// ".ron", the extension of project files.
pub open spec fn project_extension_spec() -> Seq<char> {
    seq!['.', 'r', 'o', 'n']
}

/// The directory new projects are created in by default.
pub const DEFAULT_PROJECTS_DIR: &'static str = "projects";

/// The event that creates a project.
pub struct CreateProjectEvent {
    pub project_name: String,
    pub location: String,
    pub dimension: ParticleSystemDimension,
}

/// State of the "New project" dialog.
pub struct NewProjectModal {
    pub open: bool,
    pub project_name: String,
    pub location: String,
    pub dimension: ParticleSystemDimension,
    /// set once the location was typed in; it then no longer follows the name
    pub location_edited: bool,
    /// numbers the untitled projects created in this session
    pub untitled_counter: u32,
    pub focus_requested: bool,
}

/// The name proposed for a new project.
pub open spec fn default_name_spec(counter: u32) -> Seq<char> {
    if counter == 1 {
        default_project_name_spec()
    } else {
        default_project_name_spec() + seq![' '] + decimal_spec(counter as nat)
    }
}

/// `s` without leading underscores.
pub open spec fn trim_start_underscores(s: Seq<char>) -> Seq<char>
    decreases s.len(),
{
    if s.len() > 0 && s[0] == '_' {
        trim_start_underscores(s.drop_first())
    } else {
        s
    }
}

/// `s` without trailing underscores.
pub open spec fn trim_end_underscores(s: Seq<char>) -> Seq<char>
    decreases s.len(),
{
    if s.len() > 0 && s.last() == '_' {
        trim_end_underscores(s.drop_last())
    } else {
        s
    }
}

/// A character kept in a file name, or `_` in its place.
pub open spec fn file_name_char(c: char) -> char {
    if is_alphanumeric_char(c) {
        c
    } else {
        '_'
    }
}

/// The file name made from a project name: lowercased, every character that
/// is not alphanumeric turned into `_`, and underscores trimmed at both ends.
pub open spec fn to_file_name_spec(name: Seq<char>) -> Seq<char> {
    trim_end_underscores(
        trim_start_underscores(lowercase(name).map_values(|c: char| file_name_char(c))),
    )
}

/// `projects/<file name of the default project name>`.
pub open spec fn default_location_spec(counter: u32) -> Seq<char> {
    default_projects_dir_spec() + seq!['/'] + to_file_name_spec(default_name_spec(counter))
}

proof fn lemma_trim_start_underscores_skip(s: Seq<char>, k: int)
    requires
        0 <= k <= s.len(),
        forall|i: int| 0 <= i < k ==> s[i] == '_',
        k == s.len() || s[k] != '_',
    ensures
        trim_start_underscores(s) == s.skip(k),
    decreases k,
{
    if k == 0 {
        assert(s.skip(0) =~= s);
    } else {
        let t = s.drop_first();
        assert forall|i: int| 0 <= i < k - 1 implies t[i] == '_' by {
            assert(t[i] == s[i + 1]);
        }
        lemma_trim_start_underscores_skip(t, k - 1);
        assert(t.skip(k - 1) =~= s.skip(k));
    }
}

proof fn lemma_trim_end_underscores_take(s: Seq<char>, k: int)
    requires
        0 <= k <= s.len(),
        forall|i: int| k <= i < s.len() ==> s[i] == '_',
        k == 0 || s[k - 1] != '_',
    ensures
        trim_end_underscores(s) == s.take(k),
    decreases s.len() - k,
{
    if k == s.len() {
        assert(s.take(k) =~= s);
    } else {
        let t = s.drop_last();
        assert forall|i: int| k <= i < t.len() implies t[i] == '_' by {
            assert(t[i] == s[i]);
        }
        lemma_trim_end_underscores_take(t, k);
        assert(t.take(k) =~= s.take(k));
    }
}

/// The file name for a project name (`to_lowercase`, non-alphanumerics to
/// `_`, then `trim_matches('_')`).
pub fn to_file_name(name: &str) -> (r: String)
    ensures
        r@ == to_file_name_spec(name@),
{
    let lower = to_lowercase(name);
    let lc = chars_of(lower.as_str());
    let mut mapped: Vec<char> = Vec::new();
    for i in 0..lc.len()
        invariant
            lc@ == lowercase(name@),
            mapped@ == lc@.take(i as int).map_values(|c: char| file_name_char(c)),
    {
        let c = lc[i];
        let m = if is_alphanumeric(c) {
            c
        } else {
            '_'
        };
        mapped.push(m);
        assert(mapped@ =~= lc@.take(i + 1).map_values(|c: char| file_name_char(c)));
    }
    assert(lc@.take(lc.len() as int) =~= lc@);
    let ghost m = mapped@;
    let n = mapped.len();
    let mut start: usize = 0;
    while start < n && mapped[start] == '_'
        invariant
            start <= n,
            n == mapped@.len(),
            forall|i: int| 0 <= i < start ==> mapped@[i] == '_',
        decreases n - start,
    {
        start = start + 1;
    }
    proof {
        lemma_trim_start_underscores_skip(m, start as int);
    }
    let mut end: usize = n;
    while end > start && mapped[end - 1] == '_'
        invariant
            start <= end <= n,
            n == mapped@.len(),
            forall|i: int| end <= i < n ==> mapped@[i] == '_',
        decreases end - start,
    {
        end = end - 1;
    }
    let ghost t = m.skip(start as int);
    proof {
        assert forall|i: int| end - start <= i < t.len() implies t[i] == '_' by {
            assert(t[i] == m[i + start]);
        }
        if end > start {
            assert(t[end - start - 1] == m[end - 1]);
        }
        lemma_trim_end_underscores_take(t, end - start);
    }
    let mut r: Vec<char> = Vec::new();
    for i in start..end
        invariant
            start <= end <= n,
            n == mapped@.len(),
            r@ == mapped@.subrange(start as int, i as int),
    {
        r.push(mapped[i]);
        assert(mapped@.subrange(start as int, i + 1) =~= mapped@.subrange(
            start as int,
            i as int,
        ).push(mapped@[i as int]));
    }
    assert(r@ =~= t.take(end - start));
    string_from_chars(&r)
}

fn default_project_name_chars() -> (v: Vec<char>)
    ensures
        v@ == default_project_name_spec(),
{
    let lit = "Untitled project";
    proof {
        reveal_strlit("Untitled project");
    }
    let v = chars_of(lit);
    assert(v@ =~= default_project_name_spec());
    v
}

fn default_projects_dir_chars() -> (v: Vec<char>)
    ensures
        v@ == default_projects_dir_spec(),
{
    proof {
        reveal_strlit("projects");
    }
    let v = chars_of(DEFAULT_PROJECTS_DIR);
    assert(v@ =~= default_projects_dir_spec());
    v
}

/// `projects/` followed by the file name made from `name`.
pub fn location_for_name(name: &str) -> (r: String)
    ensures
        r@ == default_projects_dir_spec() + seq!['/'] + to_file_name_spec(name@),
{
    let mut v = default_projects_dir_chars();
    v.push('/');
    let f = to_file_name(name);
    extend_chars(&mut v, &chars_of(f.as_str()));
    string_from_chars(&v)
}

/// The location of a project file: the location with `.ron` appended.
pub fn location_with_extension(location: &str) -> (r: String)
    ensures
        r@ == location@ + project_extension_spec(),
{
    let mut v = chars_of(location);
    v.push('.');
    v.push('r');
    v.push('o');
    v.push('n');
    assert(v@ =~= location@ + project_extension_spec());
    string_from_chars(&v)
}

/// Whether the location lies in the default projects directory (whose
/// parent directories are then created): it starts with "projects".
pub fn is_in_default_projects_dir(location: &str) -> (r: bool)
    ensures
        r == (default_projects_dir_spec().len() <= location@.len() && location@.take(
            default_projects_dir_spec().len() as int,
        ) == default_projects_dir_spec()),
{
    let l = chars_of(location);
    let d = default_projects_dir_chars();
    if l.len() < d.len() {
        return false;
    }
    for i in 0..d.len()
        invariant
            d@ == default_projects_dir_spec(),
            d@.len() <= l@.len(),
            l@ == location@,
            forall|j: int| 0 <= j < i ==> l@[j] == d@[j],
    {
        if l[i] != d[i] {
            assert(l@.take(d@.len() as int)[i as int] != d@[i as int]);
            return false;
        }
    }
    assert(l@.take(d@.len() as int) =~= d@);
    true
}

impl Default for NewProjectModal {
    fn default() -> (m: Self)
        ensures
            !m.open,
            m.project_name@ == Seq::<char>::empty(),
            m.location@ == Seq::<char>::empty(),
            m.dimension == ParticleSystemDimension::D3,
            !m.location_edited,
            m.untitled_counter == 1,
            !m.focus_requested,
    {
        NewProjectModal {
            open: false,
            project_name: String::new(),
            location: String::new(),
            dimension: ParticleSystemDimension::D3,
            location_edited: false,
            untitled_counter: 1,
            focus_requested: false,
        }
    }
}

impl NewProjectModal {
    /// Clears what was typed; the dialog's openness and the counter stay.
    pub fn reset(&mut self)
        ensures
            final(self).open == old(self).open,
            final(self).untitled_counter == old(self).untitled_counter,
            final(self).project_name@ == Seq::<char>::empty(),
            final(self).location@ == Seq::<char>::empty(),
            final(self).dimension == ParticleSystemDimension::D3,
            !final(self).location_edited,
            !final(self).focus_requested,
    {
        self.project_name = String::new();
        self.location = String::new();
        self.dimension = ParticleSystemDimension::D3;
        self.location_edited = false;
        self.focus_requested = false;
    }

    /// The name proposed when none is typed: "Untitled project", then
    /// "Untitled project 2", "Untitled project 3", ...
    pub fn default_name(&self) -> (r: String)
        ensures
            r@ == default_name_spec(self.untitled_counter),
    {
        let mut v = default_project_name_chars();
        if self.untitled_counter != 1 {
            v.push(' ');
            extend_chars(&mut v, &decimal_chars(self.untitled_counter as u128));
        }
        string_from_chars(&v)
    }

    /// The name the project gets: the typed name, or the proposed one when
    /// only whitespace was typed.
    pub fn effective_project_name(&self) -> (r: String)
        ensures
            r@ == (if is_blank(self.project_name@) {
                default_name_spec(self.untitled_counter)
            } else {
                self.project_name@
            }),
    {
        if is_blank_chars(&chars_of(self.project_name.as_str())) {
            self.default_name()
        } else {
            string_from_chars(&chars_of(self.project_name.as_str()))
        }
    }

    /// The location proposed when none is typed.
    pub fn default_location(&self) -> (r: String)
        ensures
            r@ == default_location_spec(self.untitled_counter),
    {
        let name = self.default_name();
        location_for_name(name.as_str())
    }

    /// The location the project file gets (without extension): the typed
    /// location, or the proposed one when only whitespace was typed.
    pub fn effective_location(&self) -> (r: String)
        ensures
            r@ == (if is_blank(self.location@) {
                default_location_spec(self.untitled_counter)
            } else {
                self.location@
            }),
    {
        if is_blank_chars(&chars_of(self.location.as_str())) {
            self.default_location()
        } else {
            string_from_chars(&chars_of(self.location.as_str()))
        }
    }

    /// The name was edited: unless the location was typed in, it follows the
    /// name.
    pub fn project_name_changed(&mut self)
        ensures
            final(self).project_name == old(self).project_name,
            final(self).location_edited == old(self).location_edited,
            final(self).open == old(self).open,
            final(self).dimension == old(self).dimension,
            final(self).untitled_counter == old(self).untitled_counter,
            final(self).focus_requested == old(self).focus_requested,
            final(self).location@ == (if old(self).location_edited {
                old(self).location@
            } else {
                default_projects_dir_spec() + seq!['/'] + to_file_name_spec(
                    old(self).project_name@,
                )
            }),
    {
        if !self.location_edited {
            self.location = location_for_name(self.project_name.as_str());
        }
    }

    /// The location was edited: it no longer follows the name.
    pub fn location_changed(&mut self)
        ensures
            final(self).location_edited,
            final(self).project_name == old(self).project_name,
            final(self).location == old(self).location,
            final(self).open == old(self).open,
            final(self).dimension == old(self).dimension,
            final(self).untitled_counter == old(self).untitled_counter,
            final(self).focus_requested == old(self).focus_requested,
    {
        self.location_edited = true;
    }

    /// The name input asks for focus once per opening; returns whether it
    /// should ask now.
    pub fn take_focus_request(&mut self) -> (ask: bool)
        ensures
            ask == !old(self).focus_requested,
            final(self).focus_requested,
            final(self).project_name == old(self).project_name,
            final(self).location == old(self).location,
            final(self).open == old(self).open,
            final(self).location_edited == old(self).location_edited,
            final(self).untitled_counter == old(self).untitled_counter,
    {
        let ask = !self.focus_requested;
        self.focus_requested = true;
        ask
    }

    /// The dialog is dismissed: it closes and forgets what was typed.
    pub fn close(&mut self)
        ensures
            !final(self).open,
            final(self).untitled_counter == old(self).untitled_counter,
            final(self).project_name@ == Seq::<char>::empty(),
            final(self).location@ == Seq::<char>::empty(),
            final(self).dimension == ParticleSystemDimension::D3,
            !final(self).location_edited,
            !final(self).focus_requested,
    {
        self.open = false;
        self.reset();
    }

    /// The event sent by the "Create" button.
    pub fn create_event(&self) -> (e: CreateProjectEvent)
        ensures
            e.project_name@ == (if is_blank(self.project_name@) {
                default_name_spec(self.untitled_counter)
            } else {
                self.project_name@
            }),
            e.location@ == (if is_blank(self.location@) {
                default_location_spec(self.untitled_counter)
            } else {
                self.location@
            }),
            e.dimension == self.dimension,
    {
        CreateProjectEvent {
            project_name: self.effective_project_name(),
            location: self.effective_location(),
            dimension: self.dimension,
        }
    }

    /// A project was created: the next untitled project gets the next
    /// number, and the dialog closes empty.
    pub fn project_created(&mut self)
        requires
            old(self).untitled_counter < u32::MAX,
        ensures
            final(self).untitled_counter == old(self).untitled_counter + 1,
            !final(self).open,
            final(self).project_name@ == Seq::<char>::empty(),
            final(self).location@ == Seq::<char>::empty(),
            final(self).dimension == ParticleSystemDimension::D3,
            !final(self).location_edited,
            !final(self).focus_requested,
    {
        self.untitled_counter = self.untitled_counter + 1;
        self.close();
    }
}

/// Each count of untitled projects proposes its own name: two counts give
/// the same name only when they are equal.
pub proof fn lemma_default_names_distinct(a: u32, b: u32)
    ensures
        default_name_spec(a) == default_name_spec(b) ==> a == b,
{
    if default_name_spec(a) == default_name_spec(b) && a != b {
        crate::text::lemma_decimal_value(a as nat);
        crate::text::lemma_decimal_value(b as nat);
        if a != 1 && b != 1 {
            assert(default_name_spec(a).skip(17) =~= decimal_spec(a as nat));
            assert(default_name_spec(b).skip(17) =~= decimal_spec(b as nat));
            crate::text::lemma_decimal_injective(a as nat, b as nat);
        } else {
            assert(default_name_spec(a).len() != default_name_spec(b).len());
        }
    }
}

/// The name a created project gets is never blank: a blank typed name is
/// replaced by the proposed one, which starts with "Untitled project".
pub proof fn lemma_effective_name_not_blank(typed: Seq<char>, counter: u32)
    ensures
        !is_blank(
            if is_blank(typed) {
                default_name_spec(counter)
            } else {
                typed
            },
        ),
{
    if is_blank(typed) {
        let n = default_name_spec(counter);
        assert(n[0] == 'U');
        assert(!crate::text::is_whitespace_char(n[0]));
    }
}

/// Every character of a file-name candidate is alphanumeric or `_`.
pub open spec fn file_name_chars_only(s: Seq<char>) -> bool {
    forall|i: int| 0 <= i < s.len() ==> (#[trigger] s[i] == '_' || is_alphanumeric_char(s[i]))
}

proof fn lemma_trim_start_underscores_shape(s: Seq<char>)
    requires
        file_name_chars_only(s),
    ensures
        file_name_chars_only(trim_start_underscores(s)),
        trim_start_underscores(s).len() > 0 ==> trim_start_underscores(s)[0] != '_',
        trim_start_underscores(s).len() <= s.len(),
    decreases s.len(),
{
    if s.len() > 0 && s[0] == '_' {
        let t = s.drop_first();
        assert forall|i: int| 0 <= i < t.len() implies (#[trigger] t[i] == '_' || is_alphanumeric_char(t[i])) by {
            assert(t[i] == s[i + 1]);
        }
        lemma_trim_start_underscores_shape(t);
    }
}

proof fn lemma_trim_end_underscores_shape(s: Seq<char>)
    requires
        file_name_chars_only(s),
        s.len() > 0 ==> s[0] != '_',
    ensures
        file_name_chars_only(trim_end_underscores(s)),
        trim_end_underscores(s).len() > 0 ==> trim_end_underscores(s)[0] != '_',
        trim_end_underscores(s).len() > 0 ==> trim_end_underscores(s).last() != '_',
    decreases s.len(),
{
    if s.len() > 0 && s.last() == '_' {
        let t = s.drop_last();
        assert forall|i: int| 0 <= i < t.len() implies (#[trigger] t[i] == '_' || is_alphanumeric_char(t[i])) by {
            assert(t[i] == s[i]);
        }
        if t.len() > 0 {
            assert(t[0] == s[0]);
        }
        lemma_trim_end_underscores_shape(t);
    }
}

/// A project's file name holds only alphanumeric characters and
/// underscores, and neither starts nor ends with an underscore.
pub proof fn lemma_file_name_shape(name: Seq<char>)
    ensures
        file_name_chars_only(to_file_name_spec(name)),
        to_file_name_spec(name).len() > 0 ==> to_file_name_spec(name)[0] != '_'
            && to_file_name_spec(name).last() != '_',
{
    let mapped = lowercase(name).map_values(|c: char| file_name_char(c));
    assert forall|i: int| 0 <= i < mapped.len() implies (#[trigger] mapped[i] == '_' || is_alphanumeric_char(mapped[i])) by {
        let c = lowercase(name)[i];
        assert(mapped[i] == file_name_char(c));
    }
    lemma_trim_start_underscores_shape(mapped);
    lemma_trim_end_underscores_shape(trim_start_underscores(mapped));
}

} // verus!
