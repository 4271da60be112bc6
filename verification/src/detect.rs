use vstd::prelude::*;

verus! {

// ---------------------------------------------------------------------
// Sigma rules
// ---------------------------------------------------------------------

#[verifier::external_type_specification]
#[verifier::external_body]
pub struct ExSigmaEvent(sigma_rust::Event);

/// What `sigma_rust::rule_from_yaml` gives for the text `yaml`, seen
/// through the rule's title: `None` when the text is not a rule.
pub uninterp spec fn sigma_rule_from_yaml(yaml: Seq<char>) -> Option<Seq<char>>;

/// Whether the text `yaml` is a Sigma rule.
pub open spec fn sigma_rule_parses(yaml: Seq<char>) -> bool {
    sigma_rule_from_yaml(yaml) is Some
}

/// The title of the rule read from `yaml`.
pub open spec fn sigma_rule_title(yaml: Seq<char>) -> Seq<char> {
    sigma_rule_from_yaml(yaml)->0
}

/// Whether `sigma_rust::event_from_json` accepts the text `json` as an event.
pub uninterp spec fn sigma_event_parses(json: Seq<char>) -> bool;

/// Whether the rule read from `yaml` matches the event read from `json`
/// (`sigma_rust::Rule::is_match`).
pub uninterp spec fn sigma_rule_matches(yaml: Seq<char>, json: Seq<char>) -> bool;

/// A Sigma detection rule: the YAML text it was read from and its title.
pub struct SigmaRule {
    source: String,
    title: String,
}

impl SigmaRule {
    /// The text is a rule and `title` is its title.
    #[verifier::type_invariant]
    closed spec fn wf(self) -> bool {
        sigma_rule_from_yaml(self.source@) == Some(self.title@)
    }
}

impl View for SigmaRule {
    type V = Seq<char>;

    /// A rule is known by the text it was read from.
    closed spec fn view(&self) -> Seq<char> {
        self.source@
    }
}

/// A log event for Sigma matching: the JSON text it was read from and the
/// parsed event.
pub struct SigmaEvent {
    source: String,
    event: sigma_rust::Event,
}

impl SigmaEvent {
    /// The text is an event.
    #[verifier::type_invariant]
    closed spec fn wf(self) -> bool {
        sigma_event_parses(self.source@)
    }
}

impl View for SigmaEvent {
    type V = Seq<char>;

    /// An event is known by the text it was read from.
    closed spec fn view(&self) -> Seq<char> {
        self.source@
    }
}

/// `sigma_rust::rule_from_yaml`, its error dropped, giving the rule's
/// `title` field. Claimed: the outcome depends on the text alone.
#[verifier::external_body]
fn parse_sigma_rule_title(yaml: &str) -> (title: Option<String>)
    ensures
        title is Some <==> sigma_rule_from_yaml(yaml@) is Some,
        title matches Some(t) ==> sigma_rule_from_yaml(yaml@) == Some(t@),
{
    sigma_rust::rule_from_yaml(yaml).ok().map(|rule| rule.title)
}

/// `sigma_rust::event_from_json`, its error dropped. Claimed: whether it
/// succeeds depends on the text alone.
#[verifier::external_body]
fn parse_sigma_event(json: &str) -> (event: Option<sigma_rust::Event>)
    ensures
        event is Some <==> sigma_event_parses(json@),
{
    sigma_rust::event_from_json(json).ok()
}

/// `sigma_rust::Rule::is_match` on the rule read from `yaml`
/// (`rule_from_yaml`) and the event read from `json` (`event_from_json`);
/// `None` when either text does not parse. Claimed: the answer depends on
/// the two texts alone.
#[verifier::external_body]
fn sigma_texts_match(yaml: &str, json: &str) -> (m: Option<bool>)
    ensures
        m is Some <==> (sigma_rule_from_yaml(yaml@) is Some && sigma_event_parses(json@)),
        m matches Some(b) ==> b == sigma_rule_matches(yaml@, json@),
{
    let rule = sigma_rust::rule_from_yaml(yaml).ok()?;
    let event = sigma_rust::event_from_json(json).ok()?;
    Some(rule.is_match(&event))
}

impl SigmaRule {
    /// Reads a rule from its YAML text; `None` when the text is not a rule.
    pub fn from_yaml(yaml: &str) -> (res: Option<SigmaRule>)
        ensures
            res is Some <==> sigma_rule_parses(yaml@),
            res matches Some(r) ==> r@ == yaml@,
    {
        match parse_sigma_rule_title(yaml) {
            Some(title) => Some(SigmaRule { source: yaml.to_owned(), title }),
            None => None,
        }
    }

    /// The rule's title.
    pub fn title(&self) -> (t: String)
        ensures
            t@ == sigma_rule_title(self@),
    {
        proof {
            use_type_invariant(self);
        }
        self.title.clone()
    }

    /// Whether this rule matches `event`.
    pub fn is_match(&self, event: &SigmaEvent) -> (m: bool)
        ensures
            m == sigma_rule_matches(self@, event@),
    {
        proof {
            use_type_invariant(self);
            use_type_invariant(event);
        }
        match sigma_texts_match(self.source.as_str(), event.source.as_str()) {
            Some(m) => m,
            None => {
                proof {
                    assert(false);
                }
                false
            },
        }
    }
}

impl SigmaEvent {
    /// Reads an event from its JSON text; `None` when the text is not an
    /// event.
    pub fn from_json(json: &str) -> (res: Option<SigmaEvent>)
        ensures
            res is Some <==> sigma_event_parses(json@),
            res matches Some(e) ==> e@ == json@,
    {
        match parse_sigma_event(json) {
            Some(event) => Some(SigmaEvent { source: json.to_owned(), event }),
            None => None,
        }
    }

    /// The parsed event held by this value.
    pub closed spec fn parsed(&self) -> sigma_rust::Event {
        self.event
    }

    /// The parsed event. Only that it is the event this value holds is
    /// stated: the event is an opaque `sigma_rust` value (a hash map of
    /// fields), so its contents are not named after the JSON text.
    pub fn event(&self) -> (e: &sigma_rust::Event)
        ensures
            *e == self.parsed(),
    {
        &self.event
    }
}

/// Whether a directory entry named `file_name` holds a Sigma rule: its
/// extension (the text after the last `.`, when that `.` is not the first
/// character) is `yaml`.
pub open spec fn spec_is_rule_file(file_name: Seq<char>) -> bool {
    file_name.len() > 5 && file_name.subrange(file_name.len() - 5, file_name.len() as int)
        == ".yaml"@
}

/// Decides whether a directory entry is a rule file, as
/// `Path::extension` compared with `"yaml"` does for a file name.
pub fn is_rule_file(file_name: &str) -> (b: bool)
    ensures
        b == spec_is_rule_file(file_name@),
{
    let n: usize = file_name.unicode_len();
    if n <= 5 {
        return false;
    }
    let tail = file_name.substring_char(n - 5, n);
    let suffix = ".yaml";
    proof {
        reveal_strlit(".yaml");
    }
    let mut i: usize = 0;
    while i < 5
        invariant
            i <= 5,
            tail@.len() == 5,
            suffix@.len() == 5,
            suffix@ == ".yaml"@,
            n > 5,
            tail@ == file_name@.subrange(n - 5, n as int),
            n == file_name@.len(),
            forall|j: int| 0 <= j < i ==> tail@[j] == suffix@[j],
        decreases 5 - i,
    {
        if tail.get_char(i) != suffix.get_char(i) {
            assert(tail@ != suffix@);
            return false;
        }
        i = i + 1;
    }
    assert(tail@ =~= suffix@);
    true
}

/// Whether a name is a rule file depends on its extension alone, whatever
/// its length: a nonempty stem followed by `.yaml` is a rule file, the
/// same stem followed by `.yml`, `.yaml.bak` or `.YAML` is not (the
/// comparison is exact), and `.yaml` alone
/// (a hidden file without extension) is not.
pub proof fn lemma_rule_file_is_decided_by_extension(stem: Seq<char>)
    requires
        stem.len() > 0,
    ensures
        spec_is_rule_file(stem + ".yaml"@),
        !spec_is_rule_file(stem + ".yml"@),
        !spec_is_rule_file(stem + ".yaml.bak"@),
        !spec_is_rule_file(stem + ".YAML"@),
        !spec_is_rule_file(".yaml"@),
{
    reveal_strlit(".yaml");
    reveal_strlit(".yml");
    reveal_strlit(".yaml.bak");
    reveal_strlit(".YAML");
    let d = stem + ".YAML"@;
    assert(d.subrange(d.len() - 5, d.len() as int)[1] == 'Y');
    let a = stem + ".yaml"@;
    assert(a.subrange(a.len() - 5, a.len() as int) =~= ".yaml"@);
    let b = stem + ".yml"@;
    assert(b.subrange(b.len() - 5, b.len() as int)[1] == b[b.len() - 4]);
    assert(b[b.len() - 4] == '.');
    assert(".yaml"@[1] == 'y');
    let c = stem + ".yaml.bak"@;
    assert(c.subrange(c.len() - 5, c.len() as int)[0] == 'l');
}

/// The names among `names` that are rule files, in their order.
pub open spec fn rule_file_names(names: Seq<Seq<char>>) -> Seq<Seq<char>> {
    names.filter(|n: Seq<char>| spec_is_rule_file(n))
}

/// The positions of the rule files among the directory entries named
/// `names`, in increasing order.
pub fn rule_file_positions(names: &Vec<String>) -> (picked: Vec<usize>)
    ensures
        forall|k: int| 0 <= k < picked@.len() ==> #[trigger] picked@[k] < names@.len(),
        forall|k: int, l: int| 0 <= k < l < picked@.len() ==> picked@[k] < picked@[l],
        picked@.map_values(|i: usize| names@[i as int]@) == rule_file_names(
            names@.map_values(|s: String| s@),
        ),
{
    let ghost all = names@.map_values(|s: String| s@);
    let mut picked: Vec<usize> = Vec::new();
    let mut i: usize = 0;
    while i < names.len()
        invariant
            i <= names@.len(),
            all == names@.map_values(|s: String| s@),
            forall|k: int| 0 <= k < picked@.len() ==> #[trigger] picked@[k] < i,
            forall|k: int, l: int| 0 <= k < l < picked@.len() ==> picked@[k] < picked@[l],
            picked@.map_values(|j: usize| names@[j as int]@) == rule_file_names(all.take(i as int)),
        decreases names@.len() - i,
    {
        let ghost before = picked@;
        let is_rule = is_rule_file(names[i].as_str());
        proof {
            assert(all.take(i + 1) =~= all.take(i as int).push(all[i as int]));
            all.take(i as int).lemma_filter_push(all[i as int], |n: Seq<char>| spec_is_rule_file(n));
        }
        if is_rule {
            picked.push(i);
            assert(picked@.map_values(|j: usize| names@[j as int]@) =~= before.map_values(
                |j: usize| names@[j as int]@,
            ).push(names@[i as int]@));
        }
        i = i + 1;
    }
    assert(all.take(names@.len() as int) =~= all);
    picked
}

/// Filtering a sequence and then counting its items is counting its
/// items and then filtering.
proof fn lemma_filter_to_multiset(names: Seq<Seq<char>>)
    ensures
        rule_file_names(names).to_multiset() =~= names.to_multiset().filter(
            |n: Seq<char>| spec_is_rule_file(n),
        ),
    decreases names.len(),
{
    broadcast use vstd::seq_lib::group_to_multiset_ensures, vstd::multiset::axiom_filter_count;

    let pred = |n: Seq<char>| spec_is_rule_file(n);
    if names.len() == 0 {
        assert(names.filter(pred) =~= Seq::<Seq<char>>::empty());
    } else {
        let rest = names.drop_last();
        let last = names.last();
        assert(rest.push(last) =~= names);
        rest.lemma_filter_push(last, pred);
        lemma_filter_to_multiset(rest);
    }
}

/// Files that are not rule files do not change which rules are read: when
/// a directory lists the entries of another and some entries that are not
/// rule files, in any order, it holds the same rule files as many times
/// each.
pub proof fn lemma_other_files_leave_rule_files_unchanged(
    names: Seq<Seq<char>>,
    extras: Seq<Seq<char>>,
    listed: Seq<Seq<char>>,
)
    requires
        listed.to_multiset() == names.to_multiset().add(extras.to_multiset()),
        forall|i: int| 0 <= i < extras.len() ==> !spec_is_rule_file(#[trigger] extras[i]),
    ensures
        rule_file_names(listed).to_multiset() == rule_file_names(names).to_multiset(),
{
    broadcast use vstd::seq_lib::group_to_multiset_ensures, vstd::multiset::axiom_filter_count;

    lemma_filter_to_multiset(listed);
    lemma_filter_to_multiset(names);
    let pred = |n: Seq<char>| spec_is_rule_file(n);
    assert forall|n: Seq<char>| #[trigger] extras.to_multiset().count(n) > 0 implies !spec_is_rule_file(n) by {
        assert(extras.contains(n));
    }
    assert(listed.to_multiset().filter(pred) =~= names.to_multiset().filter(pred));
}

/// Reads every rule text in `sources`, each of which must be a rule, and
/// gives the rules in the same order.
pub fn load_sigma_rules(sources: &Vec<String>) -> (rules: Vec<SigmaRule>)
    requires
        forall|i: int| 0 <= i < sources@.len() ==> sigma_rule_parses(#[trigger] sources@[i]@),
    ensures
        rules@.len() == sources@.len(),
        forall|i: int| 0 <= i < sources@.len() ==> (#[trigger] rules@[i])@ == sources@[i]@,
{
    let mut rules: Vec<SigmaRule> = Vec::new();
    let mut i: usize = 0;
    while i < sources.len()
        invariant
            i <= sources@.len(),
            rules@.len() == i,
            forall|j: int| 0 <= j < sources@.len() ==> sigma_rule_parses(#[trigger] sources@[j]@),
            forall|j: int| 0 <= j < i ==> (#[trigger] rules@[j])@ == sources@[j]@,
        decreases sources@.len() - i,
    {
        match SigmaRule::from_yaml(sources[i].as_str()) {
            Some(rule) => rules.push(rule),
            None => {
                proof {
                    assert(sigma_rule_parses(sources@[i as int]@));
                }
            },
        }
        i = i + 1;
    }
    rules
}

/// The position of the first text in `sources` that is not a Sigma rule,
/// or `None` when every one is.
pub fn first_non_rule(sources: &Vec<String>) -> (found: Option<usize>)
    ensures
        found is None <==> forall|i: int| 0 <= i < sources@.len() ==> sigma_rule_parses(
            #[trigger] sources@[i]@,
        ),
        found matches Some(i) ==> i < sources@.len() && !sigma_rule_parses(sources@[i as int]@)
            && forall|j: int| 0 <= j < i ==> sigma_rule_parses(#[trigger] sources@[j]@),
{
    let mut i: usize = 0;
    while i < sources.len()
        invariant
            i <= sources@.len(),
            forall|j: int| 0 <= j < i ==> sigma_rule_parses(#[trigger] sources@[j]@),
        decreases sources@.len() - i,
    {
        if SigmaRule::from_yaml(sources[i].as_str()).is_none() {
            return Some(i);
        }
        i = i + 1;
    }
    None
}

/// Reads every rule text in `sources`: the rules in the same order, or
/// `Err(i)` for the first text `i` that is not a rule, where reading all
/// of them would fail.
pub fn try_load_sigma_rules(sources: &Vec<String>) -> (res: Result<Vec<SigmaRule>, usize>)
    ensures
        res is Ok <==> forall|i: int| 0 <= i < sources@.len() ==> sigma_rule_parses(
            #[trigger] sources@[i]@,
        ),
        res matches Ok(rules) ==> rules@.len() == sources@.len() && forall|i: int|
            0 <= i < sources@.len() ==> (#[trigger] rules@[i])@ == sources@[i]@,
        res matches Err(i) ==> i < sources@.len() && !sigma_rule_parses(sources@[i as int]@)
            && forall|j: int| 0 <= j < i ==> sigma_rule_parses(#[trigger] sources@[j]@),
{
    match first_non_rule(sources) {
        Some(i) => Err(i),
        None => Ok(load_sigma_rules(sources)),
    }
}

/// The outcome of one rule on one event.
#[derive(Debug)]
pub enum SigmaVerdict {
    /// The rule matched; its title.
    Match(String),
    /// The rule did not match.
    NoMatch,
}

/// What rule `yaml` says of event `json`.
pub open spec fn spec_verdict(yaml: Seq<char>, json: Seq<char>, v: SigmaVerdict) -> bool {
    if sigma_rule_matches(yaml, json) {
        v matches SigmaVerdict::Match(title) && title@ == sigma_rule_title(yaml)
    } else {
        v is NoMatch
    }
}

/// Checks an event against every rule, in order: one verdict per rule.
pub fn match_sigma_rule(rules: &Vec<SigmaRule>, event: &SigmaEvent) -> (verdicts: Vec<SigmaVerdict>)
    ensures
        verdicts@.len() == rules@.len(),
        forall|i: int|
            0 <= i < rules@.len() ==> spec_verdict(rules@[i]@, event@, #[trigger] verdicts@[i]),
{
    let mut verdicts: Vec<SigmaVerdict> = Vec::new();
    let mut i: usize = 0;
    while i < rules.len()
        invariant
            i <= rules@.len(),
            verdicts@.len() == i,
            forall|j: int|
                0 <= j < i ==> spec_verdict(rules@[j]@, event@, #[trigger] verdicts@[j]),
        decreases rules@.len() - i,
    {
        let rule = &rules[i];
        if rule.is_match(event) {
            verdicts.push(SigmaVerdict::Match(rule.title()));
        } else {
            verdicts.push(SigmaVerdict::NoMatch);
        }
        i = i + 1;
    }
    verdicts
}

// ---------------------------------------------------------------------
// YARA rules
// ---------------------------------------------------------------------

#[verifier::external_type_specification]
#[verifier::external_body]
pub struct ExYaraRules(yara_x::Rules);

#[verifier::external_type_specification]
#[verifier::external_body]
pub struct ExYaraCompiler<'a>(yara_x::Compiler<'a>);

#[verifier::external_type_specification]
#[verifier::external_body]
pub struct ExYaraScanner<'r>(yara_x::Scanner<'r>);

/// A YARA source as a compiler took it in: its text and the directories
/// in which its `include` statements were looked up.
pub type YaraSource = (Seq<char>, Seq<Seq<char>>);

/// The sources a compiler has taken in, in the order they were added.
pub uninterp spec fn yara_compiler_sources(compiler: yara_x::Compiler<'_>) -> Seq<YaraSource>;

/// The directories a compiler looks up `include` statements in, in the
/// order they were given.
pub uninterp spec fn yara_compiler_include_dirs(compiler: yara_x::Compiler<'_>) -> Seq<Seq<char>>;

/// The sources a compiled rule set was built from, in order.
pub uninterp spec fn yara_rules_sources(rules: yara_x::Rules) -> Seq<YaraSource>;

/// The sources of the rule set a scanner scans with.
pub uninterp spec fn yara_scanner_sources(scanner: yara_x::Scanner<'_>) -> Seq<YaraSource>;

/// Holds of a source that the compiler refused after having taken in
/// `earlier`. Whether it is refused depends on the files that its
/// `include` statements read, so this records only that a refusal was
/// seen; it says nothing of which sources are refused.
pub uninterp spec fn yara_source_refusal_seen(earlier: Seq<YaraSource>, source: YaraSource) -> bool;

/// Holds of a scan outcome (the number of matching rules, or `None` for a
/// failed scan) that was seen when `data` was scanned with rules built from
/// `sources`. The outcome may depend on the clock and on the files that
/// the rules included, so this records only that it was seen; it says
/// nothing of which outcome a scan gives.
pub uninterp spec fn yara_scan_outcome_seen(sources: Seq<YaraSource>, data: Seq<u8>, outcome: Option<usize>) -> bool;

/// `yara_x::Compiler::new`. Claimed: the new compiler has taken in no
/// source and has no include directory.
#[verifier::external_body]
fn new_yara_compiler<'a>() -> (compiler: yara_x::Compiler<'a>)
    ensures
        yara_compiler_sources(compiler) == Seq::<YaraSource>::empty(),
        yara_compiler_include_dirs(compiler) == Seq::<Seq<char>>::empty(),
{
    yara_x::Compiler::new()
}

/// `yara_x::Compiler::add_include_dir`. Claimed: `dir` is appended to the
/// include directories and no source is added.
#[verifier::external_body]
fn yara_add_include_dir(compiler: &mut yara_x::Compiler, dir: &str)
    ensures
        yara_compiler_include_dirs(*final(compiler)) == yara_compiler_include_dirs(*old(compiler)).push(dir@),
        yara_compiler_sources(*final(compiler)) == yara_compiler_sources(*old(compiler)),
{
    compiler.add_include_dir(dir);
}

/// `yara_x::Compiler::add_source`, telling whether the source compiled.
/// Claimed: the include directories stay as they are, and a source that
/// compiled is added after the earlier ones, with the include directories
/// it was compiled with, and a source that did not compile is recorded as
/// refused after the sources taken in before it. Nothing is claimed of
/// whether it compiles (that depends on the files that `include`
/// statements read and on the sources added before), nor of what the
/// compiler holds after a failure.
#[verifier::external_body]
fn yara_add_source(compiler: &mut yara_x::Compiler, source: &str) -> (ok: bool)
    ensures
        yara_compiler_include_dirs(*final(compiler)) == yara_compiler_include_dirs(*old(compiler)),
        ok ==> yara_compiler_sources(*final(compiler)) == yara_compiler_sources(*old(compiler)).push((source@, yara_compiler_include_dirs(*old(compiler)))),
        !ok ==> yara_source_refusal_seen(yara_compiler_sources(*old(compiler)), (source@, yara_compiler_include_dirs(*old(compiler)))),
{
    compiler.add_source(source).is_ok()
}

/// `yara_x::Compiler::build`. Claimed: the rule set is built from the
/// sources the compiler took in.
#[verifier::external_body]
fn yara_build(compiler: yara_x::Compiler) -> (rules: yara_x::Rules)
    ensures
        yara_rules_sources(rules) == yara_compiler_sources(compiler),
{
    compiler.build()
}

/// `yara_x::Scanner::new`. Claimed: the scanner scans with `rules`.
#[verifier::external_body]
fn new_yara_scanner<'r>(rules: &'r yara_x::Rules) -> (scanner: yara_x::Scanner<'r>)
    ensures
        yara_scanner_sources(scanner) == yara_rules_sources(*rules),
{
    yara_x::Scanner::new(rules)
}

/// `yara_x::Scanner::scan` of `data`, giving the number of matching rules,
/// or `None` when the scan failed. Claimed: the scanner keeps its rules;
/// the outcome is recorded as seen for a scan of `data` with the
/// scanner's rules; and a scanner whose rules were built from no source at
/// all holds no rule, so a scan with it that succeeds matches none.
/// Nothing more is claimed of the number, nor of whether the scan
/// succeeds: YARA modules may consult the clock, and the rules hold
/// whatever their `include` statements read.
#[verifier::external_body]
fn yara_scan_count(scanner: &mut yara_x::Scanner, data: &[u8]) -> (count: Option<usize>)
    ensures
        yara_scanner_sources(*final(scanner)) == yara_scanner_sources(*old(scanner)),
        yara_scan_outcome_seen(yara_scanner_sources(*old(scanner)), data@, count),
        yara_scanner_sources(*old(scanner)).len() == 0 ==> (count matches Some(n) ==> n == 0),
{
    scanner.scan(data).ok().map(|results| results.matching_rules().len())
}

/// A rule source given to the compiler, with the one include directory
/// `dir`.
pub open spec fn yara_source_in(dir: Seq<char>, source: String) -> YaraSource {
    (source@, seq![dir])
}

/// Compiles YARA rule sources with `yara_rules_dir` as the directory for
/// `include` statements. Gives `Err(i)` when source `i` is the first that
/// does not compile.
pub fn load_yara_rules(yara_rules_dir: &str, sources: &Vec<String>) -> (res: Result<
    yara_x::Rules,
    usize,
>)
    ensures
        res matches Ok(rules) ==> yara_rules_sources(rules) == sources@.map_values(|s: String| yara_source_in(yara_rules_dir@, s)),
        res matches Err(i) ==> i < sources@.len() && yara_source_refusal_seen(
            sources@.take(i as int).map_values(|s: String| yara_source_in(yara_rules_dir@, s)),
            yara_source_in(yara_rules_dir@, sources@[i as int]),
        ),
{
    let mut compiler = new_yara_compiler();
    yara_add_include_dir(&mut compiler, yara_rules_dir);
    assert(yara_compiler_include_dirs(compiler) =~= seq![yara_rules_dir@]);
    let mut i: usize = 0;
    while i < sources.len()
        invariant
            i <= sources@.len(),
            yara_compiler_include_dirs(compiler) == seq![yara_rules_dir@],
            yara_compiler_sources(compiler) == sources@.take(i as int).map_values(|s: String| yara_source_in(yara_rules_dir@, s)),
        decreases sources@.len() - i,
    {
        let ghost before = yara_compiler_sources(compiler);
        if !yara_add_source(&mut compiler, sources[i].as_str()) {
            return Err(i);
        }
        assert(sources@.take(i + 1).map_values(|s: String| yara_source_in(yara_rules_dir@, s)) =~= before.push(yara_source_in(yara_rules_dir@, sources@[i as int])));
        i = i + 1;
    }
    assert(sources@.take(sources@.len() as int) =~= sources@);
    Ok(yara_build(compiler))
}

/// Whether a scan counts as a detection: exactly one rule matched.
pub fn single_rule_match(matching_rules: usize) -> (detected: bool)
    ensures
        detected == (matching_rules == 1),
{
    matching_rules == 1
}

/// Why a YARA scan gave no verdict.
#[derive(Debug)]
pub enum YaraScanFailure {
    /// The scanner reported an error.
    ScanFailed,
}

/// The verdict on a scan outcome: `Ok(true)` when exactly one rule
/// matched, `Ok(false)` when none or several did, an error when the scan
/// failed.
pub open spec fn spec_yara_verdict(scan: Option<usize>) -> Result<bool, YaraScanFailure> {
    match scan {
        Some(n) => Ok(n == 1),
        None => Err(YaraScanFailure::ScanFailed),
    }
}

/// Turns a scan outcome (the number of matching rules, or `None` for a
/// failed scan) into the verdict.
pub fn yara_verdict(scan: Option<usize>) -> (verdict: Result<bool, YaraScanFailure>)
    ensures
        verdict == spec_yara_verdict(scan),
{
    match scan {
        Some(n) => Ok(single_rule_match(n)),
        None => Err(YaraScanFailure::ScanFailed),
    }
}

/// A scan is a detection exactly when it succeeded with exactly one
/// matching rule: for every number of matching rules the verdict is a
/// verdict (never an error), it is `true` for one rule and `false` for
/// none or for any number above one; only a failed scan gives an error.
pub proof fn lemma_detection_is_exactly_one_match(n: usize)
    ensures
        spec_yara_verdict(Some(n)) is Ok,
        spec_yara_verdict(Some(n)) == Ok::<bool, YaraScanFailure>(true) <==> n == 1,
        n != 1 ==> spec_yara_verdict(Some(n)) == Ok::<bool, YaraScanFailure>(false),
        spec_yara_verdict(None) is Err,
{
}

/// Scans `data` with `rules`: `Ok(true)` when exactly one rule matched,
/// `Ok(false)` when none or several did, `Err(ScanFailed)` when the scan
/// failed. The result is the verdict (`spec_yara_verdict`) on the outcome
/// of a scan of `data` with `rules`; which outcome that is may depend on
/// the clock and on the files that the rules included, so beyond that
/// only this is stated of it: rules built from no source never give a
/// detection.
pub fn match_yara_rule(data: &[u8], rules: &yara_x::Rules) -> (res: Result<bool, YaraScanFailure>)
    ensures
        exists|scan: Option<usize>|
            res == spec_yara_verdict(scan) && yara_scan_outcome_seen(yara_rules_sources(*rules), data@, scan) && (
            yara_rules_sources(*rules).len() == 0 ==> (scan matches Some(n) ==> n == 0)),
        yara_rules_sources(*rules).len() == 0 ==> !(res matches Ok(true)),
        res matches Ok(true) ==> yara_scan_outcome_seen(yara_rules_sources(*rules), data@, Some(1usize)),
        res matches Ok(false) ==> exists|n: usize|
            n != 1 && #[trigger] yara_scan_outcome_seen(yara_rules_sources(*rules), data@, Some(n)),
        res is Err ==> yara_scan_outcome_seen(yara_rules_sources(*rules), data@, None),
{
    let mut scanner = new_yara_scanner(rules);
    let scan = yara_scan_count(&mut scanner, data);
    let verdict = yara_verdict(scan);
    assert(verdict == spec_yara_verdict(scan));
    verdict
}

} // verus!
