use vstd::prelude::*;

verus! {

/// The import library that the vendored mimalloc sources need on Windows.
pub open spec fn windows_link_lib_name() -> Seq<char> {
    "advapi32"@
}

/// Whether two strings hold the same text, compared byte by byte.
fn same_text(a: &str, b: &str) -> (r: bool)
    ensures
        r == (a@ == b@),
{
    proof {
        vstd::utf8::encode_utf8_decode_utf8(a@);
        vstd::utf8::encode_utf8_decode_utf8(b@);
    }
    let x = a.as_bytes();
    let y = b.as_bytes();
    if x.len() != y.len() {
        assert(x@ != y@);
        return false;
    }
    let mut i: usize = 0;
    while i < x.len()
        invariant
            x.len() == y.len(),
            x@ == vstd::utf8::encode_utf8(a@),
            y@ == vstd::utf8::encode_utf8(b@),
            0 <= i <= x.len(),
            forall|j: int| 0 <= j < i ==> x@[j] == y@[j],
        decreases x.len() - i,
    {
        if x[i] != y[i] {
            assert(x@ != y@);
            return false;
        }
        i = i + 1;
    }
    assert(x@ =~= y@);
    true
}

/// The import libraries to link when building for `target_os`: the one
/// library mimalloc needs on Windows, and none anywhere else.
pub fn windows_link_libs(target_os: &str) -> (libs: Vec<&'static str>)
    ensures
        target_os@ == "windows"@ ==> libs@.len() == 1 && libs@[0]@ == windows_link_lib_name()
            && libs@[0]@ == "advapi32"@,
        target_os@ != "windows"@ ==> libs@.len() == 0,
{
    if same_text(target_os, "windows") {
        let libs = vec!["advapi32"];
        libs
    } else {
        Vec::new()
    }
}

/// The library linked on Windows is advapi32, which holds the Win32 token and
/// privilege functions (`OpenProcessToken`, `LookupPrivilegeValue`,
/// `AdjustTokenPrivileges`) that the vendored sources call.
pub proof fn lemma_windows_link_lib_is_advapi32()
    ensures
        windows_link_lib_name() == "advapi32"@,
{
}

} // verus!
