//! What a host needs from a launch descriptor: the libraries to fetch, their
//! native variants, and the arguments of the command line.

use crate::table::StringTable;
use crate::template::{
    computes, dollar_repl, is_word_character, lemma_lone_placeholder, lemma_plain_text_stays,
    lemma_unknown_stay, marked, placeholder, placeholder_len, placeholder_name, substituted,
};
use crate::text::{text_of, texts};
use crate::vanilla::rules::PistonRuleMatcher;
use crate::vanilla::version::{ArgumentValue, PistonArgument, PistonFile, PistonLibrary};
use crate::McError;
use vstd::prelude::*;

verus! {

/// The placeholder name that stands for the host's architecture.
pub open spec fn arch_key() -> Seq<char> {
    "arch"@
}

/// The arguments that a value stands for: itself, or each of its elements
/// in order.
pub open spec fn value_texts(value: ArgumentValue) -> Seq<Seq<char>> {
    match value {
        ArgumentValue::Single(s) => seq![s@],
        ArgumentValue::Many(list) => texts(list@),
    }
}

/// Appends a copy of every string of `items` to `list`.
fn push_all(list: &mut Vec<String>, items: &Vec<String>)
    ensures
        texts(final(list)@) == texts(old(list)@) + texts(items@),
{
    let mut k: usize = 0;
    while k < items.len()
        invariant
            k <= items@.len(),
            texts(list@) == texts(old(list)@) + texts(items@.take(k as int)),
        decreases items@.len() - k,
    {
        let ghost before = list@;
        list.push(items[k].clone());
        assert(texts(list@) =~= texts(before).push(items@[k as int]@));
        assert(texts(items@.take(k + 1)) =~= texts(items@.take(k as int)).push(items@[k as int]@));
        k += 1;
        assert(texts(list@) =~= texts(old(list)@) + texts(items@.take(k as int)));
    }
    assert(items@.take(k as int) =~= items@);
}

impl PistonRuleMatcher {
    /// What the placeholder `name` gives way to: the host's architecture
    /// for the reserved name, whatever `map` holds; else what `map` holds
    /// under the name, if anything.
    pub open spec fn replacement(&self, map: Map<Seq<char>, String>, name: Seq<char>) -> Option<
        Seq<char>,
    > {
        if name == arch_key() {
            Some(self.os.arch@)
        } else if map.contains_key(name) {
            Some(map[name]@)
        } else {
            None
        }
    }

    /// `replacement` as a function of the name.
    pub open spec fn lookup(&self, map: Map<Seq<char>, String>) -> spec_fn(Seq<char>) -> Option<
        Seq<char>,
    > {
        |name: Seq<char>| self.replacement(map, name)
    }

    /// `input` with its placeholders replaced for this host.
    pub open spec fn processed(&self, map: Map<Seq<char>, String>, input: Seq<char>) -> Seq<char> {
        substituted(input, self.lookup(map))
    }

    /// The arguments that the templates select for this host, before any
    /// placeholder is replaced: `None` where a rule that had to be read
    /// holds a pattern that does not compile.
    pub open spec fn selected(&self, args: Seq<PistonArgument>) -> Option<Seq<Seq<char>>>
        decreases args.len(),
    {
        if args.len() == 0 {
            Some(Seq::empty())
        } else {
            match self.selected(args.drop_last()) {
                None => None,
                Some(before) => match args.last() {
                    PistonArgument::Normal(s) => Some(before.push(s@)),
                    PistonArgument::Ruled { rules, value } => match self.rules_outcome(rules@) {
                        None => None,
                        Some(true) => Some(before + value_texts(value)),
                        Some(false) => Some(before),
                    },
                },
            }
        }
    }

    /// The arguments that the templates come to for this host.
    pub open spec fn built(&self, args: Seq<PistonArgument>, map: Map<Seq<char>, String>) -> Option<
        Seq<Seq<char>>,
    > {
        match self.selected(args) {
            Some(raw) => Some(raw.map_values(|t: Seq<char>| self.processed(map, t))),
            None => None,
        }
    }

    /// The native file of `library` for this host: the classifier whose key
    /// the library names for the host's system, if the library has it.
    pub open spec fn native_library(&self, library: PistonLibrary) -> Option<PistonFile> {
        match (library.natives, library.downloads.classifiers) {
            (Some(keys), Some(files)) => if keys@.contains_key(self.os.name@) {
                let key = self.processed(Map::empty(), keys@[self.os.name@]@);
                if files@.contains_key(key) {
                    Some(files@[key])
                } else {
                    None
                }
            } else {
                None
            },
            _ => None,
        }
    }

    /// Whether this host needs `library`: whether it passes the library's
    /// rules.
    pub fn should_download_library(&self, library: &PistonLibrary) -> (verdict: Result<
        bool,
        McError,
    >)
        ensures
            match verdict {
                Ok(needed) => self.rules_outcome(library.rules@) == Some(needed),
                Err(error) => self.rules_outcome(library.rules@) is None && error is Regex,
            },
    {
        self.match_rules(&library.rules)
    }

    /// Find the classifier of the library for this host:
    /// `Some` if the library names a classifier for the host's system and
    /// holds a file under it, `None` otherwise. The library's rules are not
    /// read.
    #[must_use]
    pub fn get_native_library(&self, library: &PistonLibrary) -> (file: Option<PistonFile>)
        ensures
            file == self.native_library(*library),
    {
        if let Some(native_keys) = &library.natives {
            if let Some(classifier_key) = native_keys.get(self.os.name.as_str()) {
                if let Some(files) = &library.downloads.classifiers {
                    let none: StringTable<String> = StringTable::new();
                    let key = self.process_string(&none, classifier_key.as_str());
                    return match files.get(key.as_str()) {
                        Some(found) => Some(found.clone()),
                        None => None,
                    };
                }
            }
        }
        None
    }

    /// What the placeholder `key` gives way to.
    pub fn replace(&self, map: &StringTable<String>, key: &str) -> (value: Option<String>)
        ensures
            text_of(value) == self.replacement(map@, key@),
    {
        if key.eq("arch") {
            return Some(self.os.arch.clone());
        }
        match map.get(key) {
            Some(found) => Some(found.clone()),
            None => None,
        }
    }

    /// Builds the argument list for this host: plain arguments are taken as
    /// they are, ruled ones where the host passes their rules, each element
    /// of a list as an argument of its own; then the placeholders of every
    /// argument are replaced. The order of the templates is kept.
    pub fn build_args(&self, args: &[PistonArgument], map: &StringTable<String>) -> (result:
        Result<Vec<String>, McError>)
        ensures
            match result {
                Ok(list) => self.built(args@, map@) == Some(texts(list@)),
                Err(error) => self.built(args@, map@) is None && error is Regex,
            },
    {
        let mut list: Vec<String> = Vec::new();
        let mut i: usize = 0;
        assert(texts(list@) =~= Seq::<Seq<char>>::empty());
        while i < args.len()
            invariant
                i <= args@.len(),
                self.selected(args@.take(i as int)) == Some(texts(list@)),
            decreases args@.len() - i,
        {
            let ghost before = texts(list@);
            assert(args@.take(i + 1).drop_last() =~= args@.take(i as int));
            match &args[i] {
                PistonArgument::Normal(s) => {
                    list.push(s.clone());
                    assert(texts(list@) =~= before.push(s@));
                },
                PistonArgument::Ruled { rules, value } => {
                    match self.match_rules(rules) {
                        Ok(true) => {
                            match value {
                                ArgumentValue::Single(v) => {
                                    list.push(v.clone());
                                    assert(texts(list@) =~= before + seq![v@]);
                                },
                                ArgumentValue::Many(li) => {
                                    push_all(&mut list, li);
                                },
                            }
                        },
                        Ok(false) => {},
                        Err(error) => {
                            proof {
                                self.lemma_selection_fails(args@, i + 1);
                            }
                            return Err(error);
                        },
                    }
                },
            }
            i += 1;
        }
        assert(args@.take(i as int) =~= args@);
        let mut resolved: Vec<String> = Vec::new();
        let mut k: usize = 0;
        while k < list.len()
            invariant
                k <= list@.len(),
                resolved@.len() == k,
                forall|j: int|
                    0 <= j < k ==> (#[trigger] resolved@[j])@ == self.processed(map@, list@[j]@),
            decreases list@.len() - k,
        {
            resolved.push(self.process_string(map, list[k].as_str()));
            k += 1;
        }
        assert(texts(resolved@) =~= texts(list@).map_values(
            |t: Seq<char>| self.processed(map@, t),
        ));
        Ok(resolved)
    }

    /// Replaces the placeholders of `input`: `${arch}` by the host's
    /// architecture, any other by what `map` holds under its name; one that
    /// `map` does not know stays as it is.
    #[must_use]
    pub fn process_string(&self, map: &StringTable<String>, input: &str) -> (output: String)
        ensures
            output@ == self.processed(map@, input@),
    {
        let replacer = |key: &str| -> (value: Option<String>)
            ensures
                text_of(value) == self.replacement(map@, key@),
            { self.replace(map, key) };
        let output = dollar_repl(input, replacer);
        assert(computes(replacer, self.lookup(map@)));
        output
    }

    /// The placeholder of the architecture gives way to the host's
    /// architecture, whatever `map` holds under that name or any other.
    pub proof fn lemma_arch_from_host(&self, map: Map<Seq<char>, String>)
        ensures
            self.replacement(map, arch_key()) == Some(self.os.arch@),
            (self.lookup(map))(arch_key()) == Some(self.os.arch@),
    {
    }

    /// The native file of a library does not depend on the library's rules.
    pub proof fn lemma_native_ignores_rules(&self, library: PistonLibrary, other: PistonLibrary)
        requires
            other.natives == library.natives,
            other.downloads == library.downloads,
        ensures
            self.native_library(other) == self.native_library(library),
    {
    }

    /// The placeholder of the architecture, standing alone, gives way to
    /// the host's architecture, whatever `map` holds. (That the letters of
    /// the name are word characters and `}` is none is asked of the caller,
    /// since nothing here says which characters are.)
    pub proof fn lemma_arch_placeholder(&self, map: Map<Seq<char>, String>)
        requires
            forall|j: int|
                0 <= j < arch_key().len() ==> is_word_character(#[trigger] arch_key()[j]),
            !is_word_character('}'),
        ensures
            self.processed(map, placeholder(arch_key())) == self.os.arch@,
    {
        lemma_lone_placeholder(arch_key(), self.lookup(map));
    }

    /// A placeholder that stands alone and whose name is neither the
    /// architecture's nor a key of `map` stays as it is. (The same is asked
    /// of the caller as above.)
    pub proof fn lemma_unknown_placeholder(&self, map: Map<Seq<char>, String>, name: Seq<char>)
        requires
            forall|j: int| 0 <= j < name.len() ==> is_word_character(#[trigger] name[j]),
            !is_word_character('}'),
            name != arch_key(),
            !map.contains_key(name),
        ensures
            self.processed(map, placeholder(name)) == placeholder(name),
    {
        lemma_lone_placeholder(name, self.lookup(map));
    }

    /// A text without placeholders is left as it is.
    pub proof fn lemma_plain_text_unchanged(&self, map: Map<Seq<char>, String>, s: Seq<char>)
        requires
            forall|j: int| 0 <= j < s.len() ==> #[trigger] placeholder_len(marked(s), j) == 0,
        ensures
            self.processed(map, s) == s,
    {
        lemma_plain_text_stays(s, self.lookup(map));
    }

    /// A text is left as it is where each of its placeholders has a name
    /// that is neither the architecture's nor a key of `map`.
    pub proof fn lemma_unknown_unchanged(&self, map: Map<Seq<char>, String>, s: Seq<char>)
        requires
            forall|j: int|
                0 <= j < s.len() && #[trigger] placeholder_len(marked(s), j) > 0 ==> {
                    let name = placeholder_name(marked(s), j, placeholder_len(marked(s), j));
                    name != arch_key() && !map.contains_key(name)
                },
        ensures
            self.processed(map, s) == s,
    {
        lemma_unknown_stay(s, self.lookup(map));
    }

    /// Once the selection has failed on the first `k` templates, it fails
    /// on the whole list.
    pub proof fn lemma_selection_fails(&self, args: Seq<PistonArgument>, k: int)
        requires
            0 <= k <= args.len(),
            self.selected(args.take(k)) is None,
        ensures
            self.selected(args) is None,
        decreases args.len() - k,
    {
        if k == args.len() {
            assert(args.take(k) =~= args);
        } else {
            assert(args.take(k + 1).drop_last() =~= args.take(k));
            self.lemma_selection_fails(args, k + 1);
        }
    }
}

} // verus!
