//! The options of one attempt: `key=value` and bare `key` strings, collected
//! into a mapping from option name to optional value.

use vstd::prelude::*;
use crate::text::{blank, is_blank, same_text, texts};

verus! {

/// The name of the option that `arg` sets: what stands before its first `=`,
/// or all of it where it holds none.
pub open spec fn option_name(arg: Seq<char>) -> Seq<char> {
    match arg.index_of_first('=') {
        Some(i) => arg.subrange(0, i),
        None => arg,
    }
}

/// The text that `arg` gives its option: what stands behind its first `=`,
/// and nothing where it holds none.
pub open spec fn option_text(arg: Seq<char>) -> Seq<char> {
    match arg.index_of_first('=') {
        Some(i) => arg.subrange(i + 1, arg.len() as int),
        None => Seq::empty(),
    }
}

/// The value that `arg` gives its option: its text, unless that is blank. A
/// bare key, and a key with a blank text, have no value.
pub open spec fn option_value(arg: Seq<char>) -> Option<Seq<char>> {
    if blank(option_text(arg)) {
        None
    } else {
        Some(option_text(arg))
    }
}

/// The position of the last argument that names the option `name`.
pub open spec fn last_naming(args: Seq<Seq<char>>, name: Seq<char>) -> Option<int>
    decreases args.len(),
{
    if args.len() == 0 {
        None
    } else if option_name(args.last()) == name {
        Some(args.len() - 1)
    } else {
        last_naming(args.drop_last(), name)
    }
}

/// The text of option `name`, as the last argument that names it gives it.
pub open spec fn text_given(args: Seq<Seq<char>>, name: Seq<char>) -> Option<Seq<char>> {
    match last_naming(args, name) {
        Some(i) => Some(option_text(args[i])),
        None => None,
    }
}

/// The mapping that a list of arguments describes. Arguments are taken in
/// order, so of two that name the same option the later one decides.
pub open spec fn options_of(args: Seq<Seq<char>>) -> Map<Seq<char>, Option<Seq<char>>>
    decreases args.len(),
{
    if args.len() == 0 {
        Map::empty()
    } else {
        options_of(args.drop_last()).insert(option_name(args.last()), option_value(args.last()))
    }
}

/// The value that the mapping `m` holds for `name`, where it holds one.
pub open spec fn option_given(m: Map<Seq<char>, Option<Seq<char>>>, name: Seq<char>) -> Option<
    Seq<char>,
> {
    if m.contains_key(name) {
        m[name]
    } else {
        None
    }
}

/// An option that no argument names is not in the mapping.
pub proof fn lemma_unnamed_option_absent(args: Seq<Seq<char>>, name: Seq<char>)
    requires
        forall|i: int| 0 <= i < args.len() ==> option_name(#[trigger] args[i]) != name,
    ensures
        !options_of(args).contains_key(name),
    decreases args.len(),
{
    if args.len() > 0 {
        lemma_unnamed_option_absent(args.drop_last(), name);
    }
}

/// Of the arguments that name an option, the last one decides its value.
pub proof fn lemma_last_argument_decides(args: Seq<Seq<char>>, i: int)
    requires
        0 <= i < args.len(),
        forall|j: int| i < j < args.len() ==> option_name(#[trigger] args[j]) != option_name(args[i]),
    ensures
        options_of(args).contains_key(option_name(args[i])),
        options_of(args)[option_name(args[i])] == option_value(args[i]),
    decreases args.len(),
{
    if i < args.len() - 1 {
        lemma_last_argument_decides(args.drop_last(), i);
    }
}

/// The mapping holds an option exactly where some argument names it, and
/// then with the value that the last such argument gives it.
pub proof fn lemma_options_follow_last_naming(args: Seq<Seq<char>>, name: Seq<char>)
    ensures
        match last_naming(args, name) {
            Some(i) => {
                &&& 0 <= i < args.len()
                &&& option_name(args[i]) == name
                &&& options_of(args).contains_key(name)
                &&& options_of(args)[name] == option_value(args[i])
            },
            None => !options_of(args).contains_key(name),
        },
    decreases args.len(),
{
    if args.len() > 0 && option_name(args.last()) != name {
        lemma_options_follow_last_naming(args.drop_last(), name);
    }
}

/// The characters of an optional string.
pub open spec fn opt_text(v: Option<String>) -> Option<Seq<char>> {
    match v {
        Some(s) => Some(s@),
        None => None,
    }
}

/// One option: its name and, where it has one, its value.
struct OptionEntry {
    name: String,
    value: Option<String>,
}

/// The mapping that a list of entries stands for, later entries deciding.
spec fn entries_map(es: Seq<OptionEntry>) -> Map<Seq<char>, Option<Seq<char>>>
    decreases es.len(),
{
    if es.len() == 0 {
        Map::empty()
    } else {
        entries_map(es.drop_last()).insert(es.last().name@, opt_text(es.last().value))
    }
}

/// No two entries carry the same name.
spec fn distinct_names(es: Seq<OptionEntry>) -> bool {
    forall|i: int, j: int|
        0 <= i < j < es.len() ==> (#[trigger] es[i]).name@ != (#[trigger] es[j]).name@
}

/// An entry's name is a key of the mapping, and the entry's value is what the
/// key maps to, as long as names are distinct.
proof fn lemma_entry_is_mapped(es: Seq<OptionEntry>, i: int)
    requires
        distinct_names(es),
        0 <= i < es.len(),
    ensures
        entries_map(es).contains_key(es[i].name@),
        entries_map(es)[es[i].name@] == opt_text(es[i].value),
    decreases es.len(),
{
    if i < es.len() - 1 {
        lemma_entry_is_mapped(es.drop_last(), i);
    }
}

/// A name that no entry carries is no key of the mapping.
proof fn lemma_unnamed_is_unmapped(es: Seq<OptionEntry>, name: Seq<char>)
    requires
        forall|i: int| 0 <= i < es.len() ==> (#[trigger] es[i]).name@ != name,
    ensures
        !entries_map(es).contains_key(name),
    decreases es.len(),
{
    if es.len() > 0 {
        lemma_unnamed_is_unmapped(es.drop_last(), name);
    }
}

/// Every key of the mapping is the name of some entry.
proof fn lemma_mapped_is_named(es: Seq<OptionEntry>, name: Seq<char>)
    requires
        entries_map(es).contains_key(name),
    ensures
        exists|i: int| 0 <= i < es.len() && (#[trigger] es[i]).name@ == name,
{
    if forall|i: int| 0 <= i < es.len() ==> (#[trigger] es[i]).name@ != name {
        lemma_unnamed_is_unmapped(es, name);
    }
}

/// Replacing the value of the entry at `i` is an insertion under its name.
proof fn lemma_replace_is_insert(es: Seq<OptionEntry>, i: int, e: OptionEntry)
    requires
        distinct_names(es),
        0 <= i < es.len(),
        e.name@ == es[i].name@,
    ensures
        distinct_names(es.update(i, e)),
        entries_map(es.update(i, e)) == entries_map(es).insert(e.name@, opt_text(e.value)),
{
    let after = es.update(i, e);
    let want = entries_map(es).insert(e.name@, opt_text(e.value));
    assert forall|k: Seq<char>| entries_map(after).contains_key(k) <==> want.contains_key(k) by {
        if entries_map(after).contains_key(k) {
            lemma_mapped_is_named(after, k);
            let j = choose|j: int| 0 <= j < after.len() && (#[trigger] after[j]).name@ == k;
            lemma_entry_is_mapped(es, j);
        }
        if want.contains_key(k) {
            if k == e.name@ {
                lemma_entry_is_mapped(after, i);
            } else {
                lemma_mapped_is_named(es, k);
                let j = choose|j: int| 0 <= j < es.len() && (#[trigger] es[j]).name@ == k;
                lemma_entry_is_mapped(after, j);
            }
        }
    }
    assert forall|k: Seq<char>| entries_map(after).contains_key(k) implies entries_map(after)[k]
        == want[k] by {
        lemma_mapped_is_named(after, k);
        let j = choose|j: int| 0 <= j < after.len() && (#[trigger] after[j]).name@ == k;
        lemma_entry_is_mapped(after, j);
        if j != i {
            lemma_entry_is_mapped(es, j);
        }
    }
}

/// Appending an entry under a new name is an insertion under that name.
proof fn lemma_append_is_insert(es: Seq<OptionEntry>, e: OptionEntry)
    requires
        distinct_names(es),
        forall|i: int| 0 <= i < es.len() ==> (#[trigger] es[i]).name@ != e.name@,
    ensures
        distinct_names(es.push(e)),
        entries_map(es.push(e)) == entries_map(es).insert(e.name@, opt_text(e.value)),
{
    assert(es.push(e).drop_last() =~= es);
}

/// A mapping from option name to optional value, with one entry per name.
pub struct OptionMap {
    entries: Vec<OptionEntry>,
}

impl View for OptionMap {
    type V = Map<Seq<char>, Option<Seq<char>>>;

    closed spec fn view(&self) -> Map<Seq<char>, Option<Seq<char>>> {
        entries_map(self.entries@)
    }
}

impl OptionMap {
    /// Well-formedness: no two entries carry the same name.
    pub closed spec fn wf(&self) -> bool {
        distinct_names(self.entries@)
    }

    /// The mapping without any option.
    pub fn new() -> (m: OptionMap)
        ensures
            m.wf(),
            m@ == Map::<Seq<char>, Option<Seq<char>>>::empty(),
    {
        OptionMap { entries: Vec::new() }
    }

    /// Where the entry named `name` stands, if there is one.
    fn position(&self, name: &str) -> (r: Option<usize>)
        ensures
            match r {
                Some(i) => i < self.entries@.len() && self.entries@[i as int].name@ == name@,
                None => forall|i: int|
                    0 <= i < self.entries@.len() ==> (#[trigger] self.entries@[i]).name@ != name@,
            },
    {
        let mut i: usize = 0;
        while i < self.entries.len()
            invariant
                i <= self.entries@.len(),
                forall|j: int| 0 <= j < i ==> (#[trigger] self.entries@[j]).name@ != name@,
            decreases self.entries@.len() - i,
        {
            if same_text(self.entries[i].name.as_str(), name) {
                return Some(i);
            }
            i = i + 1;
        }
        None
    }

    /// Sets option `name` to `value`, in place of what it had before.
    pub fn insert(&mut self, name: String, value: Option<String>)
        requires
            old(self).wf(),
        ensures
            final(self).wf(),
            final(self)@ == old(self)@.insert(name@, opt_text(value)),
    {
        let entry = OptionEntry { name, value };
        match self.position(entry.name.as_str()) {
            Some(i) => {
                proof {
                    lemma_replace_is_insert(self.entries@, i as int, entry);
                }
                self.entries.set(i, entry);
            },
            None => {
                proof {
                    lemma_append_is_insert(self.entries@, entry);
                }
                self.entries.push(entry);
            },
        }
    }

    /// Whether option `name` was given, with or without a value.
    pub fn contains(&self, name: &str) -> (r: bool)
        requires
            self.wf(),
        ensures
            r == self@.contains_key(name@),
    {
        self.get(name).is_some()
    }

    /// What option `name` was given: `None` where it was not given at all,
    /// `Some(None)` where it was given without a value.
    pub fn get(&self, name: &str) -> (r: Option<Option<&String>>)
        requires
            self.wf(),
        ensures
            r is Some == self@.contains_key(name@),
            r matches Some(v) ==> match v {
                Some(s) => self@[name@] == Some(s@),
                None => self@[name@] is None,
            },
    {
        match self.position(name) {
            Some(i) => {
                proof {
                    lemma_entry_is_mapped(self.entries@, i as int);
                }
                Some(self.entries[i].value.as_ref())
            },
            None => {
                proof {
                    lemma_unnamed_is_unmapped(self.entries@, name@);
                }
                None
            },
        }
    }

    /// The value of option `name`, where it was given with one.
    pub fn value(&self, name: &str) -> (r: Option<&String>)
        requires
            self.wf(),
        ensures
            option_given(self@, name@) == match r {
                Some(s) => Some(s@),
                None => None,
            },
    {
        match self.get(name) {
            Some(v) => v,
            None => None,
        }
    }

    /// The number of options.
    pub fn len(&self) -> (n: usize)
        requires
            self.wf(),
        ensures
            n == self@.dom().len(),
            self@.dom().finite(),
    {
        proof {
            lemma_domain_size(self.entries@);
        }
        self.entries.len()
    }
}

/// With distinct names, the mapping has as many keys as there are entries.
proof fn lemma_domain_size(es: Seq<OptionEntry>)
    requires
        distinct_names(es),
    ensures
        entries_map(es).dom().finite(),
        entries_map(es).dom().len() == es.len(),
    decreases es.len(),
{
    if es.len() > 0 {
        let front = es.drop_last();
        lemma_domain_size(front);
        lemma_unnamed_is_unmapped(front, es.last().name@);
    }
}

/// Splits one argument at its first `=` into the option's name and text.
pub fn split_text(arg: &str) -> (r: (String, String))
    ensures
        r.0@ == option_name(arg@),
        r.1@ == option_text(arg@),
{
    let n = arg.unicode_len();
    let mut i: usize = 0;
    while i < n
        invariant
            n == arg@.len(),
            i <= n,
            forall|j: int| 0 <= j < i ==> arg@[j] != '=',
        decreases n - i,
    {
        if arg.get_char(i) == '=' {
            proof {
                arg@.index_of_first_ensures('=');
            }
            let name = arg.substring_char(0, i).to_owned();
            let text = arg.substring_char(i + 1, n).to_owned();
            return (name, text);
        }
        i = i + 1;
    }
    proof {
        arg@.index_of_first_ensures('=');
    }
    (arg.to_owned(), String::new())
}

/// Splits one argument at its first `=` into the option's name and value.
pub fn split_option(arg: &str) -> (r: (String, Option<String>))
    ensures
        r.0@ == option_name(arg@),
        opt_text(r.1) == option_value(arg@),
{
    let (name, text) = split_text(arg);
    if is_blank(text.as_str()) {
        (name, None)
    } else {
        (name, Some(text))
    }
}

/// The text of option `name`, as the last argument that names it gives it.
pub fn last_text(args: &Vec<String>, name: &str) -> (r: Option<String>)
    ensures
        opt_text(r) == text_given(texts(args@), name@),
{
    let ghost all = texts(args@);
    let mut i: usize = args.len();
    assert(all.take(i as int) =~= all);
    while i > 0
        invariant
            i <= args@.len(),
            all == texts(args@),
            last_naming(all, name@) == last_naming(all.take(i as int), name@),
        decreases i,
    {
        i = i - 1;
        let (key, text) = split_text(args[i].as_str());
        proof {
            assert(all.take(i + 1).drop_last() =~= all.take(i as int));
        }
        if same_text(key.as_str(), name) {
            return Some(text);
        }
    }
    None
}

/// Collects a list of arguments into the mapping they describe.
pub fn parse_options(args: &Vec<String>) -> (m: OptionMap)
    ensures
        m.wf(),
        m@ == options_of(texts(args@)),
{
    let mut m = OptionMap::new();
    let mut i: usize = 0;
    let ghost all = texts(args@);
    while i < args.len()
        invariant
            i <= args@.len(),
            all == texts(args@),
            m.wf(),
            m@ == options_of(all.take(i as int)),
        decreases args@.len() - i,
    {
        let (name, value) = split_option(args[i].as_str());
        proof {
            assert(all.take(i + 1).drop_last() =~= all.take(i as int));
        }
        m.insert(name, value);
        i = i + 1;
    }
    assert(all.take(i as int) =~= all);
    m
}

} // verus!
