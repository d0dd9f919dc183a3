//! Deployment names: the one the caller gave, or one made of the template
//! id and eight hexadecimal digits of a fresh random identifier.
use vstd::prelude::*;

use crate::text::{hex_digit, hex_fixed, is_lower_hex, hex_fixed_string, lemma_hex_fixed_shape};

verus! {

#[verifier::external_type_specification]
#[verifier::external_body]
pub struct ExUuid(uuid::Uuid);

/// Relies on uuid's `Uuid::new_v4`: a random identifier, of which nothing
/// is promised here.
pub assume_specification[ uuid::Uuid::new_v4 ]() -> uuid::Uuid;

/// Relies on uuid's `Uuid::as_u128`: the identifier's 128 bits, of which
/// nothing is promised here.
pub assume_specification[ uuid::Uuid::as_u128 ](u: &uuid::Uuid) -> u128;

/// The eight lowercase hexadecimal digits of the top 32 bits of `fresh`,
/// which are the first eight characters of the identifier's usual text.
pub open spec fn name_suffix(fresh: u128) -> Seq<char> {
    hex_fixed((fresh >> 96u128) as nat, 8)
}

/// `templateId-xxxxxxxx`, the suffix taken from `fresh`.
pub open spec fn synthesized_name(template_id: Seq<char>, fresh: u128) -> Seq<char> {
    template_id + seq!['-'] + name_suffix(fresh)
}

/// The name a deployment goes by: the caller's, or a synthesized one.
pub open spec fn chosen_name(
    template_id: Seq<char>,
    container_name: Option<Seq<char>>,
    fresh: u128,
) -> Seq<char> {
    match container_name {
        Some(n) => n,
        None => synthesized_name(template_id, fresh),
    }
}

/// A fresh random identifier's bits.
pub fn fresh_id() -> u128 {
    uuid::Uuid::new_v4().as_u128()
}

/// The name of a deployment of `template_id`: `container_name` when given,
/// else the template id, a dash, and eight hexadecimal digits of `fresh`.
pub fn deployment_name(template_id: &str, container_name: Option<String>, fresh: u128) -> (r:
    String)
    ensures
        r@ == chosen_name(
            template_id@,
            match container_name {
                Some(n) => Some(n@),
                None => None,
            },
            fresh,
        ),
{
    match container_name {
        Some(n) => n,
        None => {
            proof {
                reveal_strlit("-");
            }
            let mut name = String::from_str(template_id);
            name.append("-");
            let suffix = hex_fixed_string(fresh >> 96u128, 8);
            name.append(suffix.as_str());
            name
        },
    }
}

/// `16` to the power `w`.
pub open spec fn pow16(w: nat) -> nat
    decreases w,
{
    if w == 0 {
        1
    } else {
        16 * pow16((w - 1) as nat)
    }
}

proof fn lemma_hex_digit_injective(a: nat, b: nat)
    requires
        a < 16,
        b < 16,
        hex_digit(a) == hex_digit(b),
    ensures
        a == b,
{
}

/// Fixed-width renderings of numbers that fit the width differ when the
/// numbers do.
pub proof fn lemma_hex_fixed_injective(n: nat, m: nat, w: nat)
    requires
        n < pow16(w),
        m < pow16(w),
        hex_fixed(n, w) == hex_fixed(m, w),
    ensures
        n == m,
    decreases w,
{
    if w == 0 {
    } else {
        let pw = pow16((w - 1) as nat);
        assert(n / 16 < pw) by (nonlinear_arith)
            requires n < 16 * pw;
        assert(m / 16 < pw) by (nonlinear_arith)
            requires m < 16 * pw;
        let hn = hex_fixed(n / 16, (w - 1) as nat);
        let hm = hex_fixed(m / 16, (w - 1) as nat);
        assert(hex_fixed(n, w).last() == hex_digit(n % 16));
        assert(hex_fixed(m, w).last() == hex_digit(m % 16));
        lemma_hex_digit_injective(n % 16, m % 16);
        assert(hex_fixed(n, w).drop_last() =~= hn);
        assert(hex_fixed(m, w).drop_last() =~= hm);
        lemma_hex_fixed_injective(n / 16, m / 16, (w - 1) as nat);
    }
}

proof fn lemma_top_bits_fit(a: u128)
    ensures
        ((a >> 96u128) as nat) < pow16(8),
{
    assert(a >> 96u128 < 0x1_0000_0000u128) by (bit_vector);
    assert(pow16(0) == 1);
    assert(pow16(1) == 16);
    assert(pow16(2) == 256);
    assert(pow16(3) == 4096);
    assert(pow16(4) == 65536);
    assert(pow16(5) == 1048576);
    assert(pow16(6) == 16777216);
    assert(pow16(7) == 268435456);
    assert(pow16(8) == 4294967296);
}

/// A synthesized name is the template id, a dash and eight characters.
pub proof fn lemma_synthesized_name_shape(template_id: Seq<char>, fresh: u128)
    ensures
        synthesized_name(template_id, fresh).len() == template_id.len() + 9 as int,
        synthesized_name(template_id, fresh).subrange(0, template_id.len() as int) == template_id,
        synthesized_name(template_id, fresh)[template_id.len() as int] == '-',
        synthesized_name(template_id, fresh).subrange(
            template_id.len() + 1 as int,
            template_id.len() + 9 as int,
        ) == name_suffix(fresh),
        forall|i: int|
            template_id.len() + 1 <= i < template_id.len() + 9 ==> is_lower_hex(
                #[trigger] synthesized_name(template_id, fresh)[i],
            ),
{
    lemma_hex_fixed_shape((fresh >> 96u128) as nat, 8);
    let suffix = name_suffix(fresh);
    assert forall|i: int|
        template_id.len() + 1 <= i < template_id.len() + 9 implies is_lower_hex(
            #[trigger] synthesized_name(template_id, fresh)[i],
        ) by {
        assert(synthesized_name(template_id, fresh)[i] == suffix[i - template_id.len() - 1]);
    }
    let name = synthesized_name(template_id, fresh);
    assert(name.subrange(0, template_id.len() as int) =~= template_id);
    assert(name.subrange(template_id.len() + 1 as int, template_id.len() + 9 as int) =~= name_suffix(fresh));
}

/// Two unnamed deployments of one template get different names whenever
/// their fresh identifiers differ in the 32 bits the names show.
pub proof fn lemma_unnamed_deploys_get_distinct_names(template_id: Seq<char>, a: u128, b: u128)
    requires
        a >> 96u128 != b >> 96u128,
    ensures
        synthesized_name(template_id, a) != synthesized_name(template_id, b),
{
    lemma_synthesized_name_shape(template_id, a);
    lemma_synthesized_name_shape(template_id, b);
    lemma_top_bits_fit(a);
    lemma_top_bits_fit(b);
    if synthesized_name(template_id, a) == synthesized_name(template_id, b) {
        lemma_hex_fixed_injective((a >> 96u128) as nat, (b >> 96u128) as nat, 8);
    }
}

/// Unnamed deployments of two different templates get different names,
/// whatever their fresh identifiers.
pub proof fn lemma_distinct_templates_get_distinct_names(
    id1: Seq<char>,
    id2: Seq<char>,
    a: u128,
    b: u128,
)
    requires
        id1 != id2,
    ensures
        synthesized_name(id1, a) != synthesized_name(id2, b),
{
    lemma_synthesized_name_shape(id1, a);
    lemma_synthesized_name_shape(id2, b);
}

} // verus!
