//! Default constants
use vstd::prelude::*;
use vstd::string::StringExecFns;

verus! {

pub const ZEBRA_URL: &'static str = "http://zebra:8232/";

pub const ZALLET_URL: &'static str = "http://zallet:28232/";

pub const ZAINO_URL: &'static str = "http://zaino:8237/";

pub const RPC_USER: &'static str = "zebra";

pub const RPC_PASSWORD: &'static str = "zebra";

pub const CORS_ORIGIN: &'static str = "https://playground.open-rpc.org";

pub const LISTEN_PORT: u16 = 8232;

/// The playground, with `{{addr}}` where the address of the router goes.
pub const PLAYGROUND_URL: &'static str = "https://playground.open-rpc.org/?uiSchema[appBar][ui:title]=Zcash&uiSchema[appBar][ui:logoUrl]=https://z.cash/wp-content/uploads/2023/03/zcash-logo.gif&schemaUrl={{addr}}&uiSchema[appBar][ui:splitView]=false&uiSchema[appBar][ui:edit]=false&uiSchema[appBar][ui:input]=false&uiSchema[appBar][ui:examplesDropdown]=false&uiSchema[appBar][ui:transports]=false";

/// What stands before the address in the playground's URL.
pub const PLAYGROUND_HEAD: &'static str = "https://playground.open-rpc.org/?uiSchema[appBar][ui:title]=Zcash&uiSchema[appBar][ui:logoUrl]=https://z.cash/wp-content/uploads/2023/03/zcash-logo.gif&schemaUrl=";

/// What stands behind the address in the playground's URL.
pub const PLAYGROUND_TAIL: &'static str = "&uiSchema[appBar][ui:splitView]=false&uiSchema[appBar][ui:edit]=false&uiSchema[appBar][ui:input]=false&uiSchema[appBar][ui:examplesDropdown]=false&uiSchema[appBar][ui:transports]=false";

/// `text` with every occurrence of `pattern` replaced, from left to right.
pub open spec fn replaced(text: Seq<char>, pattern: Seq<char>, replacement: Seq<char>) -> Seq<char>
    decreases text.len(),
{
    if text.len() == 0 || pattern.len() == 0 {
        text
    } else if pattern.is_prefix_of(text) {
        replacement + replaced(text.skip(pattern.len() as int), pattern, replacement)
    } else {
        seq![text[0]] + replaced(text.skip(1), pattern, replacement)
    }
}

/// Text that does not hold the first character of the pattern is passed over.
proof fn lemma_passed_over(
    before: Seq<char>,
    rest: Seq<char>,
    pattern: Seq<char>,
    replacement: Seq<char>,
)
    requires
        pattern.len() > 0,
        !before.contains(pattern[0]),
    ensures
        replaced(before + rest, pattern, replacement) == before + replaced(
            rest,
            pattern,
            replacement,
        ),
    decreases before.len(),
{
    let text = before + rest;
    if before.len() == 0 {
        assert(text =~= rest);
        assert(before + replaced(rest, pattern, replacement) =~= replaced(
            rest,
            pattern,
            replacement,
        ));
    } else {
        let tail = before.skip(1);
        assert(before.contains(before[0]));
        assert(text[0] == before[0]);
        assert(!pattern.is_prefix_of(text));
        assert forall|c: char| tail.contains(c) implies before.contains(c) by {
            let i = choose|i: int| 0 <= i < tail.len() && tail[i] == c;
            assert(before[i + 1] == c);
        }
        lemma_passed_over(tail, rest, pattern, replacement);
        assert(text.skip(1) =~= tail + rest);
        assert(seq![text[0]] + (tail + replaced(rest, pattern, replacement)) =~= before + replaced(
            rest,
            pattern,
            replacement,
        ));
    }
}

/// The address stands once in the playground's URL.
pub proof fn playground_url_holds_address(addr: Seq<char>)
    ensures
        replaced(PLAYGROUND_URL@, "{{addr}}"@, addr) == PLAYGROUND_HEAD@ + addr + PLAYGROUND_TAIL@,
{
    reveal_strlit("https://playground.open-rpc.org/?uiSchema[appBar][ui:title]=Zcash&uiSchema[appBar][ui:logoUrl]=https://z.cash/wp-content/uploads/2023/03/zcash-logo.gif&schemaUrl={{addr}}&uiSchema[appBar][ui:splitView]=false&uiSchema[appBar][ui:edit]=false&uiSchema[appBar][ui:input]=false&uiSchema[appBar][ui:examplesDropdown]=false&uiSchema[appBar][ui:transports]=false");
    reveal_strlit("https://playground.open-rpc.org/?uiSchema[appBar][ui:title]=Zcash&uiSchema[appBar][ui:logoUrl]=https://z.cash/wp-content/uploads/2023/03/zcash-logo.gif&schemaUrl=");
    reveal_strlit("&uiSchema[appBar][ui:splitView]=false&uiSchema[appBar][ui:edit]=false&uiSchema[appBar][ui:input]=false&uiSchema[appBar][ui:examplesDropdown]=false&uiSchema[appBar][ui:transports]=false");
    reveal_strlit("{{addr}}");
    let pattern = "{{addr}}"@;
    let head = PLAYGROUND_HEAD@;
    let tail = PLAYGROUND_TAIL@;
    assert(pattern.len() == 8);
    assert(PLAYGROUND_URL@ =~= head + (pattern + tail));
    assert(!head.contains(pattern[0]));
    assert(!tail.contains(pattern[0]));
    lemma_passed_over(head, pattern + tail, pattern, addr);
    assert(pattern.is_prefix_of(pattern + tail));
    assert((pattern + tail).skip(8) =~= tail);
    lemma_passed_over(tail, Seq::empty(), pattern, addr);
    assert(tail + Seq::<char>::empty() =~= tail);
    assert(head + (addr + tail) =~= head + addr + tail);
}

/// The playground's URL for a router at the given address.
pub fn playground_url(addr: &str) -> (url: String)
    ensures
        url@ == replaced(PLAYGROUND_URL@, "{{addr}}"@, addr@),
{
    proof {
        playground_url_holds_address(addr@);
    }
    PLAYGROUND_HEAD.to_string().concat(addr).concat(PLAYGROUND_TAIL)
}

} // verus!
