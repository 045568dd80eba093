//! Rendering of a verifier contract from a template, the structural counts
//! of a proof and the digests of a commitment cap.

use crate::config::Widths;
use crate::digest::BytesDigest;
use crate::error::Error;
use crate::layout::VerifierConfig;
use crate::text::{
    chars_of, decimal, hex, push_all, push_decimal, push_hex, replace_all, replaced, string_of,
};
use vstd::prelude::*;

verus! {

/// The line that assigns cap entry `index` in the contract.
pub open spec fn cap_line(index: nat, entry: Seq<u8>) -> Seq<char> {
    "        sc["@ + decimal(index) + "] = 0x"@ + hex(entry) + ";\n"@
}

/// The lines that assign the entries of `cap`, one for each entry, in the
/// order of the entries.
pub open spec fn cap_lines(cap: Seq<BytesDigest<25>>) -> Seq<Seq<char>> {
    Seq::new(cap.len(), |i: int| cap_line(i as nat, cap[i]@))
}

/// `lines`, one after the other.
pub open spec fn joined(lines: Seq<Seq<char>>) -> Seq<char>
    decreases lines.len(),
{
    if lines.len() == 0 {
        Seq::empty()
    } else {
        joined(lines.drop_last()) + lines.last()
    }
}

/// The contract rendered from `template`: the token of the cap's entry
/// count, then the token of the cap's assignments, then the tokens of the
/// three cap sizes are replaced, each wherever it occurs in the text as
/// the replacements before it have left it. Anything else in the template
/// is kept as it is.
pub open spec fn rendered(
    template: Seq<char>,
    conf: VerifierConfig,
    cap: Seq<BytesDigest<25>>,
) -> Seq<char> {
    let text = replaced(template, "$SIGMA_CAP_COUNT"@, decimal(cap.len()));
    let text = replaced(text, "        $SET_SIGMA_CAP;\n"@, joined(cap_lines(cap)));
    let text = replaced(text, "$NUM_WIRES_CAP"@, decimal(conf.num_wires_cap as nat));
    let text = replaced(
        text,
        "$NUM_PLONK_ZS_PARTIAL_PRODUCTS_CAP"@,
        decimal(conf.num_plonk_zs_partial_products_cap as nat),
    );
    replaced(text, "$NUM_QUOTIENT_POLYS_CAP"@, decimal(conf.num_quotient_polys_cap as nat))
}

/// Every cap entry is written with 50 hexadecimal digits, and the cap has
/// one line for each entry.
pub proof fn lemma_cap_lines(cap: Seq<BytesDigest<25>>, i: int)
    requires
        0 <= i < cap.len(),
    ensures
        cap_lines(cap).len() == cap.len(),
        cap_lines(cap)[i] == "        sc["@ + decimal(i as nat) + "] = 0x"@ + hex(cap[i]@) + ";\n"@,
        hex(cap[i]@).len() == 50,
{
    vstd::array::array_len_matches_n(&cap[i].bytes);
}

/// The lines that assign the entries of `cap`, one after the other.
pub fn render_sigma_cap(cap: &[BytesDigest<25>]) -> (block: Vec<char>)
    ensures
        block@ == joined(cap_lines(cap@)),
{
    let open = chars_of("        sc[");
    let assign = chars_of("] = 0x");
    let close = chars_of(";\n");
    let mut block: Vec<char> = Vec::new();
    let mut i: usize = 0;
    assert(cap_lines(cap@).take(0) =~= Seq::<Seq<char>>::empty());
    while i < cap.len()
        invariant
            i <= cap.len(),
            open@ == "        sc["@,
            assign@ == "] = 0x"@,
            close@ == ";\n"@,
            block@ == joined(cap_lines(cap@).take(i as int)),
        decreases cap.len() - i,
    {
        let ghost before = block@;
        push_all(&mut block, &open);
        push_decimal(&mut block, i);
        push_all(&mut block, &assign);
        push_hex(&mut block, cap[i].bytes.as_slice());
        push_all(&mut block, &close);
        proof {
            let lines = cap_lines(cap@).take(i + 1);
            assert(lines.drop_last() =~= cap_lines(cap@).take(i as int));
            assert(lines.last() == cap_line(i as nat, cap@[i as int]@));
            assert(block@ =~= before + cap_line(i as nat, cap@[i as int]@));
        }
        i = i + 1;
    }
    assert(cap_lines(cap@).take(i as int) =~= cap_lines(cap@));
    block
}

/// Renders the verifier contract for a proof with the counts `conf`, under
/// a configuration of the sizes `widths`, from `template` and the digests
/// of the constants-and-sigmas cap.
///
/// Fails with `UnsupportedOperation` unless the digests hold 25 bytes and
/// the field and its extension 64 and 128 bits; nothing is rendered then.
pub fn generate_solidity_verifier(
    template: &str,
    conf: &VerifierConfig,
    widths: &Widths,
    sigma_cap: &[BytesDigest<25>],
) -> (result: Result<String, Error>)
    ensures
        result is Ok <==> widths.exportable(),
        match result {
            Ok(contract) => contract@ == rendered(template@, *conf, sigma_cap@),
            Err(fault) => fault == Error::UnsupportedOperation(widths.export_fault()),
        },
{
    match widths.check_exportable() {
        Err(fault) => {
            return Err(fault);
        },
        Ok(()) => {},
    }
    let mut count: Vec<char> = Vec::new();
    push_decimal(&mut count, sigma_cap.len());
    let mut wires: Vec<char> = Vec::new();
    push_decimal(&mut wires, conf.num_wires_cap);
    let mut partial_products: Vec<char> = Vec::new();
    push_decimal(&mut partial_products, conf.num_plonk_zs_partial_products_cap);
    let mut quotient: Vec<char> = Vec::new();
    push_decimal(&mut quotient, conf.num_quotient_polys_cap);
    let block = render_sigma_cap(sigma_cap);

    let text = chars_of(template);
    let text = replace_all(&text, &chars_of("$SIGMA_CAP_COUNT"), &count);
    let text = replace_all(&text, &chars_of("        $SET_SIGMA_CAP;\n"), &block);
    let text = replace_all(&text, &chars_of("$NUM_WIRES_CAP"), &wires);
    let text = replace_all(
        &text,
        &chars_of("$NUM_PLONK_ZS_PARTIAL_PRODUCTS_CAP"),
        &partial_products,
    );
    let text = replace_all(&text, &chars_of("$NUM_QUOTIENT_POLYS_CAP"), &quotient);
    Ok(string_of(&text))
}

} // verus!
