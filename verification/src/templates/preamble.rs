//! The file header.

use vstd::prelude::*;
use vstd::string::StringExecFns;

verus! {

/// The file header: imports, and the runtime helpers that async calls and streams need.
pub open spec fn preamble_text(
    prefix: Seq<char>,
    ffi_module_name: Option<Seq<char>>,
    has_async: bool,
    has_streams: bool,
) -> Seq<char> {
    "// Swift bindings of the exported module.\n\nimport Foundation\n"@ + (match ffi_module_name {
        Some(m) => "import "@ + m + "\n"@,
        None => Seq::empty(),
    }) + "\n// C symbols of this module start with `"@ + prefix + "_`.\n"@ + (if has_async {
        "\nfunc riffCall<T>(start: () -> OpaquePointer, poll: (OpaquePointer) -> Bool, complete: (OpaquePointer) throws -> T, cancel: (OpaquePointer) -> Void, free: (OpaquePointer) -> Void) async throws -> T {\n    let future = start()\n    defer { free(future) }\n    while !poll(future) {\n        if Task.isCancelled {\n            cancel(future)\n            throw CancellationError()\n        }\n        await Task.yield()\n    }\n    return try complete(future)\n}\n"@
    } else {
        Seq::empty()
    }) + (if has_streams {
        "\nfunc riffStream<T>(handle: OpaquePointer, subscribe: (OpaquePointer) -> OpaquePointer, poll: (OpaquePointer) -> Bool, popBatch: (OpaquePointer) -> Data, wait: (OpaquePointer) -> Void, unsubscribe: (OpaquePointer) -> Void, free: (OpaquePointer) -> Void, freeBuf: (Data) -> Void, cas: (OpaquePointer) -> Bool, decode: @escaping (Data) -> T) -> AsyncStream<T> {\n    let subscription = subscribe(handle)\n    return AsyncStream { continuation in\n        continuation.onTermination = { _ in\n            unsubscribe(subscription)\n            free(subscription)\n        }\n        while poll(subscription) {\n            let batch = popBatch(subscription)\n            continuation.yield(decode(batch))\n            freeBuf(batch)\n            wait(subscription)\n        }\n        continuation.finish()\n    }\n}\n"@
    } else {
        Seq::empty()
    })
}

/// The values the preamble template prints.
pub struct PreambleTemplate<'a> {
    pub prefix: &'a str,
    pub ffi_module_name: Option<&'a str>,
    pub has_async: bool,
    pub has_streams: bool,
}

/// The view of an optional string.
pub open spec fn opt_str_view(s: Option<&str>) -> Option<Seq<char>> {
    match s {
        Some(x) => Some(x@),
        None => None,
    }
}

impl<'a> PreambleTemplate<'a> {
    pub fn new(prefix: &'a str, ffi_module_name: Option<&'a str>, has_async: bool, has_streams: bool) -> (r: Self)
        ensures
            r.prefix == prefix,
            r.ffi_module_name == ffi_module_name,
            r.has_async == has_async,
            r.has_streams == has_streams,
    {
        Self { prefix, ffi_module_name, has_async, has_streams }
    }

    pub fn render(&self) -> (r: String)
        ensures
            r@ == preamble_text(
                self.prefix@,
                opt_str_view(self.ffi_module_name),
                self.has_async,
                self.has_streams,
            ),
    {
        let mut out = "// Swift bindings of the exported module.\n\nimport Foundation\n".to_owned();
        match self.ffi_module_name {
            Some(m) => {
                out.append("import ");
                out.append(m);
                out.append("\n");
            },
            None => {},
        }
        out.append("\n// C symbols of this module start with `");
        out.append(self.prefix);
        out.append("_`.\n");
        if self.has_async {
            out.append(
                "\nfunc riffCall<T>(start: () -> OpaquePointer, poll: (OpaquePointer) -> Bool, complete: (OpaquePointer) throws -> T, cancel: (OpaquePointer) -> Void, free: (OpaquePointer) -> Void) async throws -> T {\n    let future = start()\n    defer { free(future) }\n    while !poll(future) {\n        if Task.isCancelled {\n            cancel(future)\n            throw CancellationError()\n        }\n        await Task.yield()\n    }\n    return try complete(future)\n}\n",
            );
        }
        if self.has_streams {
            out.append(
                "\nfunc riffStream<T>(handle: OpaquePointer, subscribe: (OpaquePointer) -> OpaquePointer, poll: (OpaquePointer) -> Bool, popBatch: (OpaquePointer) -> Data, wait: (OpaquePointer) -> Void, unsubscribe: (OpaquePointer) -> Void, free: (OpaquePointer) -> Void, freeBuf: (Data) -> Void, cas: (OpaquePointer) -> Bool, decode: @escaping (Data) -> T) -> AsyncStream<T> {\n    let subscription = subscribe(handle)\n    return AsyncStream { continuation in\n        continuation.onTermination = { _ in\n            unsubscribe(subscription)\n            free(subscription)\n        }\n        while poll(subscription) {\n            let batch = popBatch(subscription)\n            continuation.yield(decode(batch))\n            freeBuf(batch)\n            wait(subscription)\n        }\n        continuation.finish()\n    }\n}\n",
            );
        }
        out
    }
}

/// The file header.
pub fn render_preamble(
    prefix: &str,
    ffi_module_name: Option<&str>,
    has_async: bool,
    has_streams: bool,
) -> (r: String)
    ensures
        r@ == preamble_text(prefix@, opt_str_view(ffi_module_name), has_async, has_streams),
{
    PreambleTemplate::new(prefix, ffi_module_name, has_async, has_streams).render()
}

} // verus!
