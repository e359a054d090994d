//! The emitter: one Swift file for a whole module.

use vstd::prelude::*;
use vstd::string::StringExecFns;
use crate::swift_plan::{
    spec_has_async, spec_has_streams, SwiftCallback, SwiftClass, SwiftEnum, SwiftFunction,
    SwiftModule, SwiftRecord,
};
use crate::templates::callback::{callback_text, render_callback};
use crate::templates::class::{class_text, render_class};
use crate::templates::enums::{enum_text, render_enum};
use crate::templates::function::{function_text, render_function};
use crate::templates::preamble::{preamble_text, render_preamble};
use crate::templates::record::{record_text, render_record};

verus! {

/// Each record's struct, each followed by a blank line.
pub open spec fn records_section(rs: Seq<SwiftRecord>) -> Seq<char>
    decreases rs.len(),
{
    if rs.len() == 0 {
        Seq::empty()
    } else {
        let r = rs.last();
        records_section(rs.drop_last()) + record_text(
            r.class_name@,
            r.fields@,
            r.is_blittable,
            r.blittable_size,
        ) + "\n\n"@
    }
}

/// Each enum, each followed by a blank line.
pub open spec fn enums_section(es: Seq<SwiftEnum>) -> Seq<char>
    decreases es.len(),
{
    if es.len() == 0 {
        Seq::empty()
    } else {
        enums_section(es.drop_last()) + enum_text(es.last()) + "\n\n"@
    }
}

/// Each callback's protocol and bridge, each followed by a blank line.
pub open spec fn callbacks_section(cs: Seq<SwiftCallback>) -> Seq<char>
    decreases cs.len(),
{
    if cs.len() == 0 {
        Seq::empty()
    } else {
        callbacks_section(cs.drop_last()) + callback_text(cs.last()) + "\n\n"@
    }
}

/// Each function, each followed by a blank line.
pub open spec fn functions_section(fs: Seq<SwiftFunction>, prefix: Seq<char>) -> Seq<char>
    decreases fs.len(),
{
    if fs.len() == 0 {
        Seq::empty()
    } else {
        functions_section(fs.drop_last(), prefix) + function_text(fs.last(), prefix) + "\n\n"@
    }
}

/// Each class, each followed by a blank line.
pub open spec fn classes_section(cs: Seq<SwiftClass>, prefix: Seq<char>) -> Seq<char>
    decreases cs.len(),
{
    if cs.len() == 0 {
        Seq::empty()
    } else {
        classes_section(cs.drop_last(), prefix) + class_text(cs.last(), prefix) + "\n\n"@
    }
}

/// The whole file: the preamble, then records, enums, callbacks, functions and
/// classes, in that order, each followed by a blank line.
pub open spec fn emit_text(prefix: Seq<char>, ffi_module_name: Option<Seq<char>>, m: SwiftModule) -> Seq<char> {
    preamble_text(prefix, ffi_module_name, spec_has_async(m), spec_has_streams(m)) + "\n\n"@
        + records_section(m.records@) + enums_section(m.enums@) + callbacks_section(m.callbacks@)
        + functions_section(m.functions@, prefix) + classes_section(m.classes@, prefix)
}

// ---------------------------------------------------------------------------
// Laws.
// ---------------------------------------------------------------------------

/// `m1` and `m2` hold the same records, enums, callbacks, functions and classes, except
/// as the flags say.
pub open spec fn same_parts(
    m1: SwiftModule,
    m2: SwiftModule,
    records: bool,
    enums: bool,
    callbacks: bool,
    functions: bool,
    classes: bool,
) -> bool {
    &&& records ==> m2.records@ == m1.records@
    &&& enums ==> m2.enums@ == m1.enums@
    &&& callbacks ==> m2.callbacks@ == m1.callbacks@
    &&& functions ==> m2.functions@ == m1.functions@
    &&& classes ==> m2.classes@ == m1.classes@
}

/// `big` is `small` with `piece` inserted at one place.
pub open spec fn inserted(small: Seq<char>, piece: Seq<char>, big: Seq<char>) -> bool {
    exists|k: int| 0 <= k <= small.len() && big == small.take(k) + piece + small.skip(k)
}

proof fn lemma_inserted_at(a: Seq<char>, b: Seq<char>, piece: Seq<char>)
    ensures
        inserted(a + b, piece, a + piece + b),
        (a + piece + b).len() == (a + b).len() + piece.len(),
{
    let small = a + b;
    let k = a.len() as int;
    assert(small.take(k) =~= a);
    assert(small.skip(k) =~= b);
    assert(a + piece + b =~= small.take(k) + piece + small.skip(k));
}

/// The file of a module with nothing in it is the preamble followed by a blank line.
pub proof fn lemma_emit_empty_module(prefix: Seq<char>, ffi: Option<Seq<char>>, m: SwiftModule)
    requires
        m.records@.len() == 0,
        m.enums@.len() == 0,
        m.callbacks@.len() == 0,
        m.functions@.len() == 0,
        m.classes@.len() == 0,
    ensures
        emit_text(prefix, ffi, m) == preamble_text(prefix, ffi, false, false) + "\n\n"@,
{
    assert(emit_text(prefix, ffi, m) =~= preamble_text(prefix, ffi, false, false) + "\n\n"@);
}

/// Adding an enum to a module puts its declaration, followed by a blank line, into the
/// file, and changes nothing else: the file grows by exactly that text.
pub proof fn lemma_emit_adds_enum(prefix: Seq<char>, ffi: Option<Seq<char>>, m1: SwiftModule, m2: SwiftModule, e: SwiftEnum)
    requires
        same_parts(m1, m2, true, false, true, true, true),
        m2.enums@ == m1.enums@.push(e),
    ensures
        inserted(emit_text(prefix, ffi, m1), enum_text(e) + "\n\n"@, emit_text(prefix, ffi, m2)),
        emit_text(prefix, ffi, m2).len() == emit_text(prefix, ffi, m1).len() + enum_text(e).len() + 2,
{
    assert(m1.enums@.push(e).drop_last() =~= m1.enums@);
    assert(spec_has_async(m1) == spec_has_async(m2));
    assert(spec_has_streams(m1) == spec_has_streams(m2));
    let a = preamble_text(prefix, ffi, spec_has_async(m1), spec_has_streams(m1)) + "\n\n"@
        + records_section(m1.records@) + enums_section(m1.enums@);
    let b = callbacks_section(m1.callbacks@) + functions_section(m1.functions@, prefix)
        + classes_section(m1.classes@, prefix);
    let piece = enum_text(e) + "\n\n"@;
    reveal_strlit("\n\n");
    lemma_inserted_at(a, b, piece);
    assert(emit_text(prefix, ffi, m1) =~= a + b);
    assert(emit_text(prefix, ffi, m2) =~= a + piece + b);
}

/// Adding a record to a module puts its struct, followed by a blank line, into the
/// file, and changes nothing else.
pub proof fn lemma_emit_adds_record(prefix: Seq<char>, ffi: Option<Seq<char>>, m1: SwiftModule, m2: SwiftModule, r: SwiftRecord)
    requires
        same_parts(m1, m2, false, true, true, true, true),
        m2.records@ == m1.records@.push(r),
    ensures
        inserted(
            emit_text(prefix, ffi, m1),
            record_text(r.class_name@, r.fields@, r.is_blittable, r.blittable_size) + "\n\n"@,
            emit_text(prefix, ffi, m2),
        ),
{
    assert(m1.records@.push(r).drop_last() =~= m1.records@);
    assert(spec_has_async(m1) == spec_has_async(m2));
    assert(spec_has_streams(m1) == spec_has_streams(m2));
    let a = preamble_text(prefix, ffi, spec_has_async(m1), spec_has_streams(m1)) + "\n\n"@
        + records_section(m1.records@);
    let b = enums_section(m1.enums@) + callbacks_section(m1.callbacks@) + functions_section(
        m1.functions@,
        prefix,
    ) + classes_section(m1.classes@, prefix);
    let piece = record_text(r.class_name@, r.fields@, r.is_blittable, r.blittable_size) + "\n\n"@;
    lemma_inserted_at(a, b, piece);
    assert(emit_text(prefix, ffi, m1) =~= a + b);
    assert(emit_text(prefix, ffi, m2) =~= a + piece + b);
}

/// Adding a callback to a module puts its protocol and bridge, followed by a blank
/// line, into the file, and changes nothing else.
pub proof fn lemma_emit_adds_callback(prefix: Seq<char>, ffi: Option<Seq<char>>, m1: SwiftModule, m2: SwiftModule, c: SwiftCallback)
    requires
        same_parts(m1, m2, true, true, false, true, true),
        m2.callbacks@ == m1.callbacks@.push(c),
    ensures
        inserted(emit_text(prefix, ffi, m1), callback_text(c) + "\n\n"@, emit_text(prefix, ffi, m2)),
{
    assert(m1.callbacks@.push(c).drop_last() =~= m1.callbacks@);
    assert(spec_has_async(m1) == spec_has_async(m2));
    assert(spec_has_streams(m1) == spec_has_streams(m2));
    let a = preamble_text(prefix, ffi, spec_has_async(m1), spec_has_streams(m1)) + "\n\n"@
        + records_section(m1.records@) + enums_section(m1.enums@) + callbacks_section(m1.callbacks@);
    let b = functions_section(m1.functions@, prefix) + classes_section(m1.classes@, prefix);
    let piece = callback_text(c) + "\n\n"@;
    lemma_inserted_at(a, b, piece);
    assert(emit_text(prefix, ffi, m1) =~= a + b);
    assert(emit_text(prefix, ffi, m2) =~= a + piece + b);
}

/// Adding a synchronous function to a module puts it, followed by a blank line, into
/// the file, and changes nothing else.
pub proof fn lemma_emit_adds_function(prefix: Seq<char>, ffi: Option<Seq<char>>, m1: SwiftModule, m2: SwiftModule, f: SwiftFunction)
    requires
        same_parts(m1, m2, true, true, true, false, true),
        m2.functions@ == m1.functions@.push(f),
        f.mode is Sync,
    ensures
        inserted(emit_text(prefix, ffi, m1), function_text(f, prefix) + "\n\n"@, emit_text(prefix, ffi, m2)),
{
    assert(m1.functions@.push(f).drop_last() =~= m1.functions@);
    assert(spec_has_async(m1) == spec_has_async(m2)) by {
        if spec_has_async(m2) {
            if exists|i: int| 0 <= i < m2.functions@.len() && (#[trigger] m2.functions@[i]).mode is Async {
                let i = choose|i: int| 0 <= i < m2.functions@.len() && (#[trigger] m2.functions@[i]).mode is Async;
                assert(i < m1.functions@.len());
                assert(m1.functions@[i] == m2.functions@[i]);
            }
        }
        if spec_has_async(m1) {
            if exists|i: int| 0 <= i < m1.functions@.len() && (#[trigger] m1.functions@[i]).mode is Async {
                let i = choose|i: int| 0 <= i < m1.functions@.len() && (#[trigger] m1.functions@[i]).mode is Async;
                assert(m2.functions@[i] == m1.functions@[i]);
            }
        }
    }
    assert(spec_has_streams(m1) == spec_has_streams(m2));
    let a = preamble_text(prefix, ffi, spec_has_async(m1), spec_has_streams(m1)) + "\n\n"@
        + records_section(m1.records@) + enums_section(m1.enums@) + callbacks_section(m1.callbacks@)
        + functions_section(m1.functions@, prefix);
    let b = classes_section(m1.classes@, prefix);
    let piece = function_text(f, prefix) + "\n\n"@;
    lemma_inserted_at(a, b, piece);
    assert(emit_text(prefix, ffi, m1) =~= a + b);
    assert(emit_text(prefix, ffi, m2) =~= a + piece + b);
}

/// Adding a class to a module, where that changes neither whether some call is async
/// nor whether some class has a stream, puts the class, followed by a blank line, at the
/// end of the file.
pub proof fn lemma_emit_adds_class(prefix: Seq<char>, ffi: Option<Seq<char>>, m1: SwiftModule, m2: SwiftModule, c: SwiftClass)
    requires
        same_parts(m1, m2, true, true, true, true, false),
        m2.classes@ == m1.classes@.push(c),
        spec_has_async(m1) == spec_has_async(m2),
        spec_has_streams(m1) == spec_has_streams(m2),
    ensures
        emit_text(prefix, ffi, m2) == emit_text(prefix, ffi, m1) + class_text(c, prefix) + "\n\n"@,
{
    assert(m1.classes@.push(c).drop_last() =~= m1.classes@);
    assert(emit_text(prefix, ffi, m2) =~= emit_text(prefix, ffi, m1) + class_text(c, prefix) + "\n\n"@);
}

/// The parts of a file come in a fixed order: for a module with one record, one enum,
/// one callback, one function and one class, the file is the preamble, then the record,
/// the enum, the callback, the function and the class, each followed by a blank line.
pub proof fn lemma_emit_order(
    prefix: Seq<char>,
    ffi: Option<Seq<char>>,
    m: SwiftModule,
    r: SwiftRecord,
    e: SwiftEnum,
    c: SwiftCallback,
    f: SwiftFunction,
    k: SwiftClass,
)
    requires
        m.records@ == seq![r],
        m.enums@ == seq![e],
        m.callbacks@ == seq![c],
        m.functions@ == seq![f],
        m.classes@ == seq![k],
    ensures
        emit_text(prefix, ffi, m) == preamble_text(prefix, ffi, spec_has_async(m), spec_has_streams(m))
            + "\n\n"@ + record_text(r.class_name@, r.fields@, r.is_blittable, r.blittable_size)
            + "\n\n"@ + enum_text(e) + "\n\n"@ + callback_text(c) + "\n\n"@ + function_text(f, prefix)
            + "\n\n"@ + class_text(k, prefix) + "\n\n"@,
{
    assert(seq![r].drop_last() =~= Seq::<SwiftRecord>::empty());
    assert(seq![e].drop_last() =~= Seq::<SwiftEnum>::empty());
    assert(seq![c].drop_last() =~= Seq::<SwiftCallback>::empty());
    assert(seq![f].drop_last() =~= Seq::<SwiftFunction>::empty());
    assert(seq![k].drop_last() =~= Seq::<SwiftClass>::empty());
    assert(records_section(Seq::<SwiftRecord>::empty()) == Seq::<char>::empty());
    assert(enums_section(Seq::<SwiftEnum>::empty()) == Seq::<char>::empty());
    assert(callbacks_section(Seq::<SwiftCallback>::empty()) == Seq::<char>::empty());
    assert(functions_section(Seq::<SwiftFunction>::empty(), prefix) == Seq::<char>::empty());
    assert(classes_section(Seq::<SwiftClass>::empty(), prefix) == Seq::<char>::empty());
    assert(seq![r].last() == r);
    assert(seq![e].last() == e);
    assert(seq![c].last() == c);
    assert(seq![f].last() == f);
    assert(seq![k].last() == k);
    assert(records_section(m.records@) =~= record_text(
        r.class_name@,
        r.fields@,
        r.is_blittable,
        r.blittable_size,
    ) + "\n\n"@);
    assert(enums_section(m.enums@) =~= enum_text(e) + "\n\n"@);
    assert(callbacks_section(m.callbacks@) =~= callback_text(c) + "\n\n"@);
    assert(functions_section(m.functions@, prefix) =~= function_text(f, prefix) + "\n\n"@);
    assert(classes_section(m.classes@, prefix) =~= class_text(k, prefix) + "\n\n"@);
    assert(emit_text(prefix, ffi, m) =~= preamble_text(prefix, ffi, spec_has_async(m), spec_has_streams(m))
        + "\n\n"@ + record_text(r.class_name@, r.fields@, r.is_blittable, r.blittable_size)
        + "\n\n"@ + enum_text(e) + "\n\n"@ + callback_text(c) + "\n\n"@ + function_text(f, prefix)
        + "\n\n"@ + class_text(k, prefix) + "\n\n"@);
}

/// Every file starts with its preamble and a blank line; the preamble's async and
/// stream helpers are there exactly when some call is async or some class has a stream.
pub proof fn lemma_emit_starts_with_preamble(prefix: Seq<char>, ffi: Option<Seq<char>>, m: SwiftModule)
    ensures
        ({
            let p = preamble_text(prefix, ffi, spec_has_async(m), spec_has_streams(m)) + "\n\n"@;
            emit_text(prefix, ffi, m).len() >= p.len() && emit_text(prefix, ffi, m).take(p.len() as int) == p
        }),
{
    let p = preamble_text(prefix, ffi, spec_has_async(m), spec_has_streams(m)) + "\n\n"@;
    let rest = records_section(m.records@) + enums_section(m.enums@) + callbacks_section(m.callbacks@)
        + functions_section(m.functions@, prefix) + classes_section(m.classes@, prefix);
    assert(emit_text(prefix, ffi, m) =~= p + rest);
    assert((p + rest).take(p.len() as int) =~= p);
}

/// Writes the Swift file for a module.
pub struct SwiftEmitter {
    prefix: String,
    ffi_module_name: Option<String>,
}

/// The view of an optional string.
pub open spec fn opt_string_view(s: Option<String>) -> Option<Seq<char>> {
    match s {
        Some(x) => Some(x@),
        None => None,
    }
}

impl SwiftEmitter {
    /// The symbol prefix.
    pub closed spec fn spec_prefix(&self) -> Seq<char> {
        self.prefix@
    }

    /// The name of the module that declares the C functions, if one is imported.
    pub closed spec fn spec_ffi_module(&self) -> Option<Seq<char>> {
        opt_string_view(self.ffi_module_name)
    }

    /// An emitter with an empty prefix and no module import.
    pub fn new() -> (r: Self)
        ensures
            r.spec_prefix() == Seq::<char>::empty(),
            r.spec_ffi_module() is None,
    {
        Self { prefix: String::new(), ffi_module_name: None }
    }

    /// An emitter with the given symbol prefix.
    pub fn with_prefix(prefix: &str) -> (r: Self)
        ensures
            r.spec_prefix() == prefix@,
            r.spec_ffi_module() is None,
    {
        Self { prefix: prefix.to_owned(), ffi_module_name: None }
    }

    /// The same emitter, importing the module that declares the C functions.
    pub fn with_ffi_module(self, ffi_module: &str) -> (r: Self)
        ensures
            r.spec_prefix() == self.spec_prefix(),
            r.spec_ffi_module() == Some(ffi_module@),
    {
        let mut e = self;
        e.ffi_module_name = Some(ffi_module.to_owned());
        e
    }

    /// The Swift file for `module`.
    pub fn emit(&self, module: &SwiftModule) -> (r: String)
        ensures
            r@ == emit_text(self.spec_prefix(), self.spec_ffi_module(), *module),
    {
        let ffi: Option<&str> = match &self.ffi_module_name {
            Some(m) => Some(m.as_str()),
            None => None,
        };
        let mut output = String::new();
        let preamble = render_preamble(
            self.prefix.as_str(),
            ffi,
            module.has_async(),
            module.has_streams(),
        );
        output.append(preamble.as_str());
        output.append("\n\n");
        let ghost after_preamble = output@;

        let mut i: usize = 0;
        while i < module.records.len()
            invariant
                i <= module.records@.len(),
                output@ == after_preamble + records_section(module.records@.take(i as int)),
            decreases module.records.len() - i,
        {
            assert(module.records@.take(i + 1).drop_last() =~= module.records@.take(i as int));
            let text = render_record(&module.records[i]);
            output.append(text.as_str());
            output.append("\n\n");
            i = i + 1;
            assert(output@ =~= after_preamble + records_section(module.records@.take(i as int)));
        }
        assert(module.records@.take(i as int) =~= module.records@);
        let ghost after_records = output@;

        let mut i: usize = 0;
        while i < module.enums.len()
            invariant
                i <= module.enums@.len(),
                output@ == after_records + enums_section(module.enums@.take(i as int)),
            decreases module.enums.len() - i,
        {
            assert(module.enums@.take(i + 1).drop_last() =~= module.enums@.take(i as int));
            let text = render_enum(&module.enums[i]);
            output.append(text.as_str());
            output.append("\n\n");
            i = i + 1;
            assert(output@ =~= after_records + enums_section(module.enums@.take(i as int)));
        }
        assert(module.enums@.take(i as int) =~= module.enums@);
        let ghost after_enums = output@;

        let mut i: usize = 0;
        while i < module.callbacks.len()
            invariant
                i <= module.callbacks@.len(),
                output@ == after_enums + callbacks_section(module.callbacks@.take(i as int)),
            decreases module.callbacks.len() - i,
        {
            assert(module.callbacks@.take(i + 1).drop_last() =~= module.callbacks@.take(i as int));
            let text = render_callback(&module.callbacks[i]);
            output.append(text.as_str());
            output.append("\n\n");
            i = i + 1;
            assert(output@ =~= after_enums + callbacks_section(module.callbacks@.take(i as int)));
        }
        assert(module.callbacks@.take(i as int) =~= module.callbacks@);
        let ghost after_callbacks = output@;

        let mut i: usize = 0;
        while i < module.functions.len()
            invariant
                i <= module.functions@.len(),
                output@ == after_callbacks + functions_section(
                    module.functions@.take(i as int),
                    self.prefix@,
                ),
            decreases module.functions.len() - i,
        {
            assert(module.functions@.take(i + 1).drop_last() =~= module.functions@.take(i as int));
            let text = render_function(&module.functions[i], self.prefix.as_str());
            output.append(text.as_str());
            output.append("\n\n");
            i = i + 1;
            assert(output@ =~= after_callbacks + functions_section(
                module.functions@.take(i as int),
                self.prefix@,
            ));
        }
        assert(module.functions@.take(i as int) =~= module.functions@);
        let ghost after_functions = output@;

        let mut i: usize = 0;
        while i < module.classes.len()
            invariant
                i <= module.classes@.len(),
                output@ == after_functions + classes_section(
                    module.classes@.take(i as int),
                    self.prefix@,
                ),
            decreases module.classes.len() - i,
        {
            assert(module.classes@.take(i + 1).drop_last() =~= module.classes@.take(i as int));
            let text = render_class(&module.classes[i], self.prefix.as_str());
            output.append(text.as_str());
            output.append("\n\n");
            i = i + 1;
            assert(output@ =~= after_functions + classes_section(
                module.classes@.take(i as int),
                self.prefix@,
            ));
        }
        assert(module.classes@.take(i as int) =~= module.classes@);
        assert(output@ =~= emit_text(self.prefix@, opt_string_view(self.ffi_module_name), *module));
        output
    }
}

impl Default for SwiftEmitter {
    fn default() -> (r: Self)
        ensures
            r.spec_prefix() == Seq::<char>::empty(),
            r.spec_ffi_module() is None,
    {
        Self::new()
    }
}

} // verus!
