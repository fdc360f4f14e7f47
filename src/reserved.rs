use vstd::prelude::*;

verus! {

broadcast use vstd::string::group_string_axioms;

/// The reserved names: the built-in modules of the Node.js runtime, plus names that
/// clash with the file system or the web server.
pub open spec fn reserved_name(s: Seq<char>) -> bool {
    s == "assert"@
        || s == "assert/strict"@
        || s == "async_hooks"@
        || s == "buffer"@
        || s == "child_process"@
        || s == "cluster"@
        || s == "console"@
        || s == "constants"@
        || s == "crypto"@
        || s == "dgram"@
        || s == "diagnostics_channel"@
        || s == "dns"@
        || s == "dns/promises"@
        || s == "domain"@
        || s == "events"@
        || s == "favicon.ico"@
        || s == "fs"@
        || s == "fs/promises"@
        || s == "http"@
        || s == "http2"@
        || s == "https"@
        || s == "inspector"@
        || s == "module"@
        || s == "net"@
        || s == "node_modules"@
        || s == "os"@
        || s == "path"@
        || s == "path/posix"@
        || s == "path/win32"@
        || s == "perf_hooks"@
        || s == "process"@
        || s == "punycode"@
        || s == "querystring"@
        || s == "readline"@
        || s == "readline/promises"@
        || s == "repl"@
        || s == "stream"@
        || s == "stream/consumers"@
        || s == "stream/promises"@
        || s == "stream/web"@
        || s == "string_decoder"@
        || s == "sys"@
        || s == "timers"@
        || s == "timers/promises"@
        || s == "tls"@
        || s == "trace_events"@
        || s == "tty"@
        || s == "url"@
        || s == "util"@
        || s == "util/types"@
        || s == "v8"@
        || s == "vm"@
        || s == "wasi"@
        || s == "worker_threads"@
        || s == "zlib"@
}

/// Whether `a` and `b` hold the same text. They are compared through their UTF-8
/// bytes, which stand for the characters one for one.
fn same_text(a: &str, b: &str) -> (r: bool)
    ensures
        r == (a@ == b@),
{
    let x = a.as_bytes();
    let y = b.as_bytes();
    proof {
        vstd::utf8::encode_utf8_decode_utf8(a@);
        vstd::utf8::encode_utf8_decode_utf8(b@);
    }
    if x.len() != y.len() {
        return false;
    }
    let mut i: usize = 0;
    while i < x.len()
        invariant
            x@ == vstd::utf8::encode_utf8(a@),
            y@ == vstd::utf8::encode_utf8(b@),
            x.len() == y.len(),
            i <= x.len(),
            x@.take(i as int) == y@.take(i as int),
        decreases x.len() - i,
    {
        if x[i] != y[i] {
            return false;
        }
        proof {
            assert(x@.take(i + 1) =~= x@.take(i as int).push(x@[i as int]));
            assert(y@.take(i + 1) =~= y@.take(i as int).push(y@[i as int]));
        }
        i = i + 1;
    }
    proof {
        assert(x@.take(i as int) =~= x@);
        assert(y@.take(i as int) =~= y@);
    }
    true
}

/// Whether `name` is one of the reserved names. The names are grouped by their
/// number of characters, so a lookup compares `name` with a few of them only.
pub fn is_reserved(name: &str) -> (r: bool)
    ensures
        r == reserved_name(name@),
{
    proof {
        reveal_strlit("assert");
        reveal_strlit("assert/strict");
        reveal_strlit("async_hooks");
        reveal_strlit("buffer");
        reveal_strlit("child_process");
        reveal_strlit("cluster");
        reveal_strlit("console");
        reveal_strlit("constants");
        reveal_strlit("crypto");
        reveal_strlit("dgram");
        reveal_strlit("diagnostics_channel");
        reveal_strlit("dns");
        reveal_strlit("dns/promises");
        reveal_strlit("domain");
        reveal_strlit("events");
        reveal_strlit("favicon.ico");
        reveal_strlit("fs");
        reveal_strlit("fs/promises");
        reveal_strlit("http");
        reveal_strlit("http2");
        reveal_strlit("https");
        reveal_strlit("inspector");
        reveal_strlit("module");
        reveal_strlit("net");
        reveal_strlit("node_modules");
        reveal_strlit("os");
        reveal_strlit("path");
        reveal_strlit("path/posix");
        reveal_strlit("path/win32");
        reveal_strlit("perf_hooks");
        reveal_strlit("process");
        reveal_strlit("punycode");
        reveal_strlit("querystring");
        reveal_strlit("readline");
        reveal_strlit("readline/promises");
        reveal_strlit("repl");
        reveal_strlit("stream");
        reveal_strlit("stream/consumers");
        reveal_strlit("stream/promises");
        reveal_strlit("stream/web");
        reveal_strlit("string_decoder");
        reveal_strlit("sys");
        reveal_strlit("timers");
        reveal_strlit("timers/promises");
        reveal_strlit("tls");
        reveal_strlit("trace_events");
        reveal_strlit("tty");
        reveal_strlit("url");
        reveal_strlit("util");
        reveal_strlit("util/types");
        reveal_strlit("v8");
        reveal_strlit("vm");
        reveal_strlit("wasi");
        reveal_strlit("worker_threads");
        reveal_strlit("zlib");
    }
    match name.unicode_len() {
        2 => same_text(name, "fs")
            || same_text(name, "os")
            || same_text(name, "v8")
            || same_text(name, "vm"),
        3 => same_text(name, "dns")
            || same_text(name, "net")
            || same_text(name, "sys")
            || same_text(name, "tls")
            || same_text(name, "tty")
            || same_text(name, "url"),
        4 => same_text(name, "http")
            || same_text(name, "path")
            || same_text(name, "repl")
            || same_text(name, "util")
            || same_text(name, "wasi")
            || same_text(name, "zlib"),
        5 => same_text(name, "dgram")
            || same_text(name, "http2")
            || same_text(name, "https"),
        6 => same_text(name, "assert")
            || same_text(name, "buffer")
            || same_text(name, "crypto")
            || same_text(name, "domain")
            || same_text(name, "events")
            || same_text(name, "module")
            || same_text(name, "stream")
            || same_text(name, "timers"),
        7 => same_text(name, "cluster")
            || same_text(name, "console")
            || same_text(name, "process"),
        8 => same_text(name, "punycode")
            || same_text(name, "readline"),
        9 => same_text(name, "constants")
            || same_text(name, "inspector"),
        10 => same_text(name, "path/posix")
            || same_text(name, "path/win32")
            || same_text(name, "perf_hooks")
            || same_text(name, "stream/web")
            || same_text(name, "util/types"),
        11 => same_text(name, "async_hooks")
            || same_text(name, "favicon.ico")
            || same_text(name, "fs/promises")
            || same_text(name, "querystring"),
        12 => same_text(name, "dns/promises")
            || same_text(name, "node_modules")
            || same_text(name, "trace_events"),
        13 => same_text(name, "assert/strict")
            || same_text(name, "child_process"),
        14 => same_text(name, "string_decoder")
            || same_text(name, "worker_threads"),
        15 => same_text(name, "stream/promises")
            || same_text(name, "timers/promises"),
        16 => same_text(name, "stream/consumers"),
        17 => same_text(name, "readline/promises"),
        19 => same_text(name, "diagnostics_channel"),
        _ => false,
    }
}

} // verus!
