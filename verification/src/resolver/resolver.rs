use vstd::prelude::*;
use crate::errors::errors::{Error, ErrorView};
use crate::executor::executor::{analyze, lex, name_prefix, parse};
use crate::lexer::lexer::{LexFailure, LexFault, spec_lex};
use crate::parser::ast::{Node, NodeView, nodes_view, lemma_nodes_view_push};
use crate::parser::grammar::{ParseCtx, lemma_parse_gives_block, spec_parse};
use crate::parser::import::Import;
use crate::semantic::analyzer::{AnalyzerNode, analysis_error};
use crate::text::{str_equals, string_of};

verus! {

/// Why a file could not be imported.
pub enum ImportFailure {
    /// A lexical, syntax or semantic error in the file.
    Failed(Error),
    /// The file holds `::` right after an identifier character, which the
    /// lexer's identifier check never finishes on.
    Endless,
}

/// The mathematical content of an [`ImportFailure`].
pub enum ImportFault {
    Failed(ErrorView),
    Endless,
}

impl View for ImportFailure {
    type V = ImportFault;

    open spec fn view(&self) -> ImportFault {
        match self {
            ImportFailure::Failed(e) => ImportFault::Failed(e@),
            ImportFailure::Endless => ImportFault::Endless,
        }
    }
}

/// The nodes an imported file contributes: natives, functions, types,
/// units, traits and imports.
pub open spec fn is_declaration(n: NodeView) -> bool {
    n is Native || n is FnDeclaration || n is Type || n is Unit || n is Trait || n is Import
}

/// The declarations among the first `k` nodes of `s`, in order.
pub open spec fn declarations(s: Seq<NodeView>, k: int) -> Seq<NodeView>
    decreases k,
{
    if k <= 0 || k > s.len() {
        Seq::empty()
    } else if is_declaration(s[k - 1]) {
        declarations(s, k - 1).push(s[k - 1])
    } else {
        declarations(s, k - 1)
    }
}

/// The index of the first library named `name` from index `i` on, or -1.
pub open spec fn library_from(libs: Seq<(String, String)>, name: Seq<char>, i: int) -> int
    decreases libs.len() - i,
{
    if i < 0 || i >= libs.len() {
        -1
    } else if libs[i].0@ == name {
        i
    } else {
        library_from(libs, name, i + 1)
    }
}

/// The file an import reads: the library's path for a library name, the
/// name itself otherwise.
pub open spec fn resolved_file(libs: Seq<(String, String)>, file: String) -> String {
    let i = library_from(libs, file@, 0);
    if 0 <= i < libs.len() {
        libs[i].1
    } else {
        file
    }
}

/// What importing the source `code` of the file `file` gives: its
/// declarations, lexed, parsed and analysed, or the first failure.
pub open spec fn resolution(file: String, code: Seq<char>, full_name: Option<String>) -> Result<NodeView, ImportFault> {
    match spec_lex(code, file) {
        Err(LexFault::Failed(e)) => Err(ImportFault::Failed(e)),
        Err(LexFault::Endless) => Err(ImportFault::Endless),
        Ok(toks) => match spec_parse(ParseCtx { toks, file, prefix: name_prefix(file@, full_name) }) {
            Err(e) => Err(ImportFault::Failed(e)),
            Ok(n) => match analysis_error(n, Seq::<AnalyzerNode>::empty()) {
                Some(e) => Err(ImportFault::Failed(e)),
                None => Ok(NodeView::Block { body: declarations(n->Block_body, n->Block_body.len() as int) }),
            },
        },
    }
}

/// Whether a node is one an imported file contributes.
fn is_declaration_node(n: &Node) -> (r: bool)
    ensures
        r == is_declaration(n@),
{
    match n {
        Node::Native { .. } | Node::FnDeclaration { .. } | Node::Type { .. } | Node::Unit { .. } | Node::Trait { .. } | Node::Import { .. } => true,
        _ => false,
    }
}

/// Keeps the files a program imports: which have been imported already,
/// where the standard libraries lie, and which files every program gets.
pub struct ImportsResolver {
    imported: Vec<String>,
    libraries: Vec<(String, String)>,
    builtins: Vec<String>,
}

impl ImportsResolver {
    /// The files imported so far, in order.
    pub closed spec fn imported(&self) -> Seq<Seq<char>> {
        self.imported@.map_values(|s: String| s@)
    }

    /// The libraries: each name with the path of its file.
    pub closed spec fn libraries(&self) -> Seq<(String, String)> {
        self.libraries@
    }

    /// The files imported into every program.
    pub closed spec fn builtins(&self) -> Seq<String> {
        self.builtins@
    }

    /// A resolver that has imported nothing and knows the standard libraries.
    pub fn new() -> (r: Self)
        ensures
            r.imported() == Seq::<Seq<char>>::empty(),
            r.libraries().len() == 10,
            r.libraries()[0].0@ == "std.io"@ && r.libraries()[0].1@ == "./libs/std/std_io.wt"@,
            r.libraries()[1].0@ == "std.gc"@ && r.libraries()[1].1@ == "./libs/std/std_gc.wt"@,
            r.libraries()[2].0@ == "std.errors"@ && r.libraries()[2].1@ == "./libs/std/std_errors.wt"@,
            r.libraries()[3].0@ == "std.convert"@ && r.libraries()[3].1@ == "./libs/std/std_convert.wt"@,
            r.libraries()[4].0@ == "std.typeof"@ && r.libraries()[4].1@ == "./libs/std/std_typeof.wt"@,
            r.libraries()[5].0@ == "std.time"@ && r.libraries()[5].1@ == "./libs/std/std_time.wt"@,
            r.libraries()[6].0@ == "std.math"@ && r.libraries()[6].1@ == "./libs/std/std_math.wt"@,
            r.libraries()[7].0@ == "std.random"@ && r.libraries()[7].1@ == "./libs/std/std_random.wt"@,
            r.libraries()[8].0@ == "std.fs"@ && r.libraries()[8].1@ == "./libs/std/std_fs.wt"@,
            r.libraries()[9].0@ == "std.system"@ && r.libraries()[9].1@ == "./libs/std/std_system.wt"@,
            r.builtins().len() == 1,
            r.builtins()[0]@ == "./libs/base.wt"@,
    {
        let mut libraries: Vec<(String, String)> = Vec::new();
        libraries.push((string_of("std.io"), string_of("./libs/std/std_io.wt")));
        libraries.push((string_of("std.gc"), string_of("./libs/std/std_gc.wt")));
        libraries.push((string_of("std.errors"), string_of("./libs/std/std_errors.wt")));
        libraries.push((string_of("std.convert"), string_of("./libs/std/std_convert.wt")));
        libraries.push((string_of("std.typeof"), string_of("./libs/std/std_typeof.wt")));
        libraries.push((string_of("std.time"), string_of("./libs/std/std_time.wt")));
        libraries.push((string_of("std.math"), string_of("./libs/std/std_math.wt")));
        libraries.push((string_of("std.random"), string_of("./libs/std/std_random.wt")));
        libraries.push((string_of("std.fs"), string_of("./libs/std/std_fs.wt")));
        libraries.push((string_of("std.system"), string_of("./libs/std/std_system.wt")));
        let mut builtins: Vec<String> = Vec::new();
        builtins.push(string_of("./libs/base.wt"));
        let r = ImportsResolver { imported: Vec::new(), libraries, builtins };
        assert(r.imported() =~= Seq::<Seq<char>>::empty());
        r
    }

    /// Whether `file` has been imported.
    pub fn is_imported(&self, file: &String) -> (r: bool)
        ensures
            r == self.imported().contains(file@),
    {
        let mut i: usize = 0;
        while i < self.imported.len()
            invariant
                i <= self.imported@.len(),
                forall|j: int| 0 <= j < i ==> self.imported@[j]@ != file@,
            decreases self.imported@.len() - i,
        {
            if self.imported[i] == *file {
                assert(self.imported()[i as int] == file@);
                return true;
            }
            i = i + 1;
        }
        assert(!self.imported().contains(file@)) by {
            if self.imported().contains(file@) {
                let j = choose|j: int| 0 <= j < self.imported().len() && self.imported()[j] == file@;
                assert(self.imported@[j]@ == file@);
            }
        }
        false
    }

    /// The file an import reads: a library's path, or the import's own file.
    pub fn resolve_path(&self, import: &Import) -> (r: String)
        ensures
            r == resolved_file(self.libraries(), import.file),
    {
        let mut i: usize = 0;
        while i < self.libraries.len()
            invariant
                i <= self.libraries@.len(),
                library_from(self.libraries@, import.file@, 0) == library_from(self.libraries@, import.file@, i as int),
            decreases self.libraries@.len() - i,
        {
            if str_equals(self.libraries[i].0.as_str(), import.file.as_str()) {
                return self.libraries[i].1.clone();
            }
            i = i + 1;
        }
        import.file.clone()
    }

    /// Lexes, parses and analyses the source `code` of an import, and keeps
    /// its declarations.
    pub fn resolve(&self, import: &Import, code: &[char]) -> (r: Result<Node, ImportFailure>)
        requires
            code@.len() + 4 <= usize::MAX,
        ensures
            match r {
                Ok(n) => resolution(resolved_file(self.libraries(), import.file), code@, import.full_name) == Ok::<NodeView, ImportFault>(n@),
                Err(f) => resolution(resolved_file(self.libraries(), import.file), code@, import.full_name) == Err::<NodeView, ImportFault>(f@),
            },
    {
        let path = self.resolve_path(import);
        let tokens = match lex(path.clone(), code) {
            Ok(ts) => ts,
            Err(LexFailure::Failed(e)) => {
                return Err(ImportFailure::Failed(e));
            },
            Err(LexFailure::Endless) => {
                return Err(ImportFailure::Endless);
            },
        };
        let ghost toks = crate::lexer::lexer::tokens_view(tokens@);
        let ast = match parse(path.clone(), tokens, import.full_name.clone()) {
            Ok(n) => n,
            Err(e) => {
                return Err(ImportFailure::Failed(e));
            },
        };
        proof {
            lemma_parse_gives_block(ParseCtx { toks, file: path, prefix: name_prefix(path@, import.full_name) });
        }
        let analyzed = match analyze(ast) {
            Ok(n) => n,
            Err(e) => {
                return Err(ImportFailure::Failed(e));
            },
        };
        match analyzed {
            Node::Block { body } => {
                let ghost orig = body@;
                let ghost sv = nodes_view(body@);
                let ghost n: int = sv.len() as int;
                let mut new_body: Vec<Node> = Vec::new();
                let mut rest = body;
                let mut k: usize = 0;
                let total: usize = rest.len();
                proof {
                    assert(nodes_view(new_body@) =~= Seq::<NodeView>::empty());
                    assert(rest@ =~= orig.subrange(0, n));
                }
                while rest.len() > 0
                    invariant
                        k <= n,
                        sv == nodes_view(orig),
                        n == orig.len(),
                        n == total,
                        rest@ =~= orig.subrange(k as int, n),
                        nodes_view(new_body@) == declarations(sv, k as int),
                    decreases rest@.len(),
                {
                    let node = rest.remove(0);
                    proof {
                        assert(node == orig[k as int]);
                        assert(sv[k as int] == node@);
                    }
                    if is_declaration_node(&node) {
                        proof {
                            lemma_nodes_view_push(new_body@, node);
                        }
                        new_body.push(node);
                    }
                    k = k + 1;
                    proof {
                        assert(rest@ =~= orig.subrange(k as int, n));
                    }
                }
                Ok(Node::Block { body: new_body })
            },
            _ => {
                proof {
                    assert(false);
                }
                Ok(Node::Block { body: Vec::new() })
            },
        }
    }

    /// Imports a file once: the first time, its declarations resolved from
    /// its source `code`; after that, nothing.
    pub fn import(&mut self, import: &Import, code: &[char]) -> (r: Result<Option<Node>, ImportFailure>)
        requires
            code@.len() + 4 <= usize::MAX,
        ensures
            final(self).libraries() == old(self).libraries(),
            final(self).builtins() == old(self).builtins(),
            import_step(old(self).libraries(), old(self).imported(), *import, code@) == (import_out(r), final(self).imported()),
    {
        if !self.is_imported(&import.file) {
            let node = self.resolve(import, code)?;
            self.imported.push(import.file.clone());
            proof {
                assert(self.imported() =~= old(self).imported().push(import.file@));
            }
            Ok(Some(node))
        } else {
            Ok(None)
        }
    }

    /// Imports the files every program gets, each not imported yet, in
    /// order; `sources[i]` is the source of the `i`-th of them.
    pub fn import_builtins(&mut self, sources: &Vec<Vec<char>>) -> (r: Result<Vec<Node>, ImportFailure>)
        requires
            sources@.len() == old(self).builtins().len(),
            forall|i: int| 0 <= i < sources@.len() ==> sources@[i]@.len() + 4 <= usize::MAX,
        ensures
            final(self).libraries() == old(self).libraries(),
            final(self).builtins() == old(self).builtins(),
            ({
                let run = builtins_run(old(self).libraries(), old(self).imported(), old(self).builtins(), sources@.map_values(|s: Vec<char>| s@), 0, Seq::empty());
                match r {
                    Ok(nodes) => run.0 == Ok::<Seq<NodeView>, ImportFault>(nodes_view(nodes@)) && final(self).imported() == run.1,
                    Err(f) => run.0 == Err::<Seq<NodeView>, ImportFault>(f@),
                }
            }),
    {
        let ghost srcs = sources@.map_values(|s: Vec<char>| s@);
        let ghost libs = self.libraries();
        let ghost blts = self.builtins();
        let mut nodes: Vec<Node> = Vec::new();
        let mut i: usize = 0;
        proof {
            assert(nodes_view(nodes@) =~= Seq::<NodeView>::empty());
        }
        while i < self.builtins.len()
            invariant
                i <= blts.len(),
                self.libraries() == libs,
                self.builtins() == blts,
                libs == old(self).libraries(),
                blts == old(self).builtins(),
                sources@.len() == blts.len(),
                srcs == sources@.map_values(|s: Vec<char>| s@),
                forall|j: int| 0 <= j < sources@.len() ==> sources@[j]@.len() + 4 <= usize::MAX,
                builtins_run(libs, old(self).imported(), blts, srcs, 0, Seq::empty())
                    == builtins_run(libs, self.imported(), blts, srcs, i as int, nodes_view(nodes@)),
            decreases blts.len() - i,
        {
            let import = Import::new(None, self.builtins[i].clone(), None);
            match self.import(&import, sources[i].as_slice()) {
                Ok(Some(node)) => {
                    proof {
                        lemma_nodes_view_push(nodes@, node);
                    }
                    nodes.push(node);
                },
                Ok(None) => {},
                Err(f) => {
                    return Err(f);
                },
            }
            i = i + 1;
        }
        Ok(nodes)
    }
}

/// What an import does to the files imported so far: the first time a file
/// is imported, its resolution (and, on success, the file is recorded);
/// after that, nothing.
pub open spec fn import_step(libs: Seq<(String, String)>, imported: Seq<Seq<char>>, import: Import, code: Seq<char>) -> (Result<Option<NodeView>, ImportFault>, Seq<Seq<char>>) {
    if imported.contains(import.file@) {
        (Ok(None), imported)
    } else {
        match resolution(resolved_file(libs, import.file), code, import.full_name) {
            Ok(n) => (Ok(Some(n)), imported.push(import.file@)),
            Err(f) => (Err(f), imported),
        }
    }
}

/// The mathematical content of what an import returns.
pub open spec fn import_out(r: Result<Option<Node>, ImportFailure>) -> Result<Option<NodeView>, ImportFault> {
    match r {
        Ok(Some(n)) => Ok(Some(n@)),
        Ok(None) => Ok(None),
        Err(f) => Err(f@),
    }
}

/// A file is imported at most once: after an import of it has succeeded,
/// importing it again gives nothing and records nothing, whatever its source.
pub proof fn law_import_once(libs: Seq<(String, String)>, imported: Seq<Seq<char>>, import: Import, first: Seq<char>, second: Seq<char>)
    ensures
        import_step(libs, imported, import, first).0 is Ok ==> {
            let after = import_step(libs, imported, import, first).1;
            import_step(libs, after, import, second) == (Ok::<Option<NodeView>, ImportFault>(None), after)
        },
{
    let after = import_step(libs, imported, import, first).1;
    if !imported.contains(import.file@) && import_step(libs, imported, import, first).0 is Ok {
        assert(after[after.len() - 1] == import.file@);
        assert(after.contains(import.file@));
    }
}

proof fn lemma_declarations(s: Seq<NodeView>, k: int)
    ensures
        forall|i: int| 0 <= i < declarations(s, k).len() ==> is_declaration(#[trigger] declarations(s, k)[i]),
    decreases k,
{
    if 0 < k <= s.len() {
        lemma_declarations(s, k - 1);
        let prev = declarations(s, k - 1);
        if is_declaration(s[k - 1]) {
            assert forall|i: int| 0 <= i < declarations(s, k).len() implies is_declaration(#[trigger] declarations(s, k)[i]) by {
                if i < prev.len() {
                    assert(declarations(s, k)[i] == prev[i]);
                }
            }
        }
    }
}

/// Whether a node is a native, a function, a type, a unit, a trait or an
/// import.
pub open spec fn kept_kind(n: NodeView) -> bool {
    match n {
        NodeView::Native { .. } => true,
        NodeView::FnDeclaration { .. } => true,
        NodeView::Type { .. } => true,
        NodeView::Unit { .. } => true,
        NodeView::Trait { .. } => true,
        NodeView::Import { .. } => true,
        _ => false,
    }
}

proof fn lemma_declarations_filter(s: Seq<NodeView>, k: int)
    requires
        0 <= k <= s.len(),
    ensures
        declarations(s, k) == s.subrange(0, k).filter(|n: NodeView| kept_kind(n)),
    decreases k,
{
    reveal(Seq::filter);
    let pre = s.subrange(0, k);
    if k > 0 {
        lemma_declarations_filter(s, k - 1);
        assert(pre.drop_last() =~= s.subrange(0, k - 1));
        assert(pre.last() == s[k - 1]);
    } else {
        assert(pre =~= Seq::<NodeView>::empty());
    }
}

/// The nodes a file contributes are exactly its top-level natives,
/// functions, types, units, traits and imports, in their order.
pub proof fn law_declarations_keep_kinds_in_order(s: Seq<NodeView>)
    ensures
        declarations(s, s.len() as int) == s.filter(|n: NodeView| kept_kind(n)),
{
    lemma_declarations_filter(s, s.len() as int);
    assert(s.subrange(0, s.len() as int) =~= s);
}

/// An imported file contributes only declarations: natives, functions,
/// types, units, traits and imports, gathered in one block.
pub proof fn law_resolution_keeps_declarations(file: String, code: Seq<char>, full_name: Option<String>)
    ensures
        resolution(file, code, full_name) is Ok ==> {
            let n = resolution(file, code, full_name)->Ok_0;
            n is Block && forall|i: int| 0 <= i < n->Block_body.len() ==> is_declaration(#[trigger] n->Block_body[i])
        },
{
    if resolution(file, code, full_name) is Ok {
        let toks = spec_lex(code, file)->Ok_0;
        let p = spec_parse(ParseCtx { toks, file, prefix: name_prefix(file@, full_name) })->Ok_0;
        lemma_declarations(p->Block_body, p->Block_body.len() as int);
    }
}

/// What importing the files every program gets does, from the `i`-th on:
/// the declarations gathered after `acc` and the files imported after
/// `imported`, or the first failure.
pub open spec fn builtins_run(
    libs: Seq<(String, String)>,
    imported: Seq<Seq<char>>,
    builtins: Seq<String>,
    sources: Seq<Seq<char>>,
    i: int,
    acc: Seq<NodeView>,
) -> (Result<Seq<NodeView>, ImportFault>, Seq<Seq<char>>)
    decreases builtins.len() - i,
{
    if i < 0 || i >= builtins.len() {
        (Ok(acc), imported)
    } else if imported.contains(builtins[i]@) {
        builtins_run(libs, imported, builtins, sources, i + 1, acc)
    } else {
        match resolution(resolved_file(libs, builtins[i]), sources[i], None) {
            Err(f) => (Err(f), imported),
            Ok(n) => builtins_run(libs, imported.push(builtins[i]@), builtins, sources, i + 1, acc.push(n)),
        }
    }
}

/// Importing a file that has been imported gives nothing and records
/// nothing, whatever its source.
pub proof fn law_second_import_gives_nothing(libs: Seq<(String, String)>, imported: Seq<Seq<char>>, import: Import, code: Seq<char>)
    requires
        imported.contains(import.file@),
    ensures
        import_step(libs, imported, import, code) == (Ok::<Option<NodeView>, ImportFault>(None), imported),
{
}

proof fn lemma_builtins_run_records(
    libs: Seq<(String, String)>,
    imported: Seq<Seq<char>>,
    builtins: Seq<String>,
    sources: Seq<Seq<char>>,
    i: int,
    acc: Seq<NodeView>,
)
    requires
        0 <= i,
    ensures
        builtins_run(libs, imported, builtins, sources, i, acc).0 is Ok ==> {
            let after = builtins_run(libs, imported, builtins, sources, i, acc).1;
            &&& forall|j: int| i <= j < builtins.len() ==> after.contains(#[trigger] builtins[j]@)
            &&& forall|x: Seq<char>| imported.contains(x) ==> #[trigger] after.contains(x)
        },
    decreases builtins.len() - i,
{
    if i < builtins.len() {
        if imported.contains(builtins[i]@) {
            lemma_builtins_run_records(libs, imported, builtins, sources, i + 1, acc);
        } else {
            match resolution(resolved_file(libs, builtins[i]), sources[i], None) {
                Err(_) => {},
                Ok(n) => {
                    let next = imported.push(builtins[i]@);
                    lemma_builtins_run_records(libs, next, builtins, sources, i + 1, acc.push(n));
                    assert(next[next.len() - 1] == builtins[i]@);
                    assert(next.contains(builtins[i]@));
                    assert forall|x: Seq<char>| imported.contains(x) implies next.contains(x) by {
                        let k = choose|k: int| 0 <= k < imported.len() && imported[k] == x;
                        assert(next[k] == x);
                    }
                },
            }
        }
    }
}

proof fn lemma_builtins_run_done(
    libs: Seq<(String, String)>,
    imported: Seq<Seq<char>>,
    builtins: Seq<String>,
    sources: Seq<Seq<char>>,
    i: int,
    acc: Seq<NodeView>,
)
    requires
        0 <= i,
        forall|j: int| i <= j < builtins.len() ==> imported.contains(#[trigger] builtins[j]@),
    ensures
        builtins_run(libs, imported, builtins, sources, i, acc) == (Ok::<Seq<NodeView>, ImportFault>(acc), imported),
    decreases builtins.len() - i,
{
    if i < builtins.len() {
        lemma_builtins_run_done(libs, imported, builtins, sources, i + 1, acc);
    }
}

/// The files every program gets are imported once: after importing them has
/// succeeded, importing them again gives no nodes and records nothing,
/// whatever their sources are then.
pub proof fn law_builtins_imported_once(
    libs: Seq<(String, String)>,
    imported: Seq<Seq<char>>,
    builtins: Seq<String>,
    first: Seq<Seq<char>>,
    second: Seq<Seq<char>>,
)
    ensures
        builtins_run(libs, imported, builtins, first, 0, Seq::empty()).0 is Ok ==> {
            let after = builtins_run(libs, imported, builtins, first, 0, Seq::empty()).1;
            builtins_run(libs, after, builtins, second, 0, Seq::empty()) == (Ok::<Seq<NodeView>, ImportFault>(Seq::empty()), after)
        },
{
    lemma_builtins_run_records(libs, imported, builtins, first, 0, Seq::empty());
    if builtins_run(libs, imported, builtins, first, 0, Seq::empty()).0 is Ok {
        let after = builtins_run(libs, imported, builtins, first, 0, Seq::empty()).1;
        lemma_builtins_run_done(libs, after, builtins, second, 0, Seq::empty());
    }
}

} // verus!
