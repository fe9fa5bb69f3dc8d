//! Building the ordered scalar sequence that the engine's encoder takes.

use vstd::prelude::*;

verus! {

/// One circuit input as a caller supplies it.
#[derive(Clone, Debug, PartialEq, Eq)]
pub enum Scalar {
    /// A field element, written as the engine's decoder reads it.
    Decimal(String),
    /// A raw byte, standing for the scalar of the same value.
    Byte(u8),
}

/// The character of a decimal digit.
pub open spec fn digit_char(d: nat) -> char
    recommends
        d < 10,
{
    if d == 0 {
        '0'
    } else if d == 1 {
        '1'
    } else if d == 2 {
        '2'
    } else if d == 3 {
        '3'
    } else if d == 4 {
        '4'
    } else if d == 5 {
        '5'
    } else if d == 6 {
        '6'
    } else if d == 7 {
        '7'
    } else if d == 8 {
        '8'
    } else {
        '9'
    }
}

/// The decimal numeral of `n`, most significant digit first, without leading
/// zeros (`0` is written `"0"`).
pub open spec fn decimal(n: nat) -> Seq<char>
    decreases n,
{
    if n < 10 {
        seq![digit_char(n)]
    } else {
        decimal(n / 10).push(digit_char(n % 10))
    }
}

impl Scalar {
    /// The canonical decimal text of the scalar: a decimal string stands as
    /// supplied, a byte is written out as its numeral.
    pub open spec fn canonical(self) -> Seq<char> {
        match self {
            Scalar::Decimal(text) => text@,
            Scalar::Byte(b) => decimal(b as nat),
        }
    }

    /// Writes the scalar in canonical decimal text.
    pub fn to_decimal(&self) -> (r: String)
        ensures
            r@ == self.canonical(),
    {
        match self {
            Scalar::Decimal(text) => text.clone(),
            Scalar::Byte(b) => byte_decimal(*b),
        }
    }
}

/// The one-character text of a digit.
fn digit_text(d: u8) -> (r: &'static str)
    requires
        d < 10,
    ensures
        r@ == seq![digit_char(d as nat)],
{
    proof {
        reveal_strlit("0");
        reveal_strlit("1");
        reveal_strlit("2");
        reveal_strlit("3");
        reveal_strlit("4");
        reveal_strlit("5");
        reveal_strlit("6");
        reveal_strlit("7");
        reveal_strlit("8");
        reveal_strlit("9");
    }
    let r = if d == 0 {
        "0"
    } else if d == 1 {
        "1"
    } else if d == 2 {
        "2"
    } else if d == 3 {
        "3"
    } else if d == 4 {
        "4"
    } else if d == 5 {
        "5"
    } else if d == 6 {
        "6"
    } else if d == 7 {
        "7"
    } else if d == 8 {
        "8"
    } else {
        "9"
    };
    assert(r@ =~= seq![digit_char(d as nat)]);
    r
}

/// The decimal numeral of a byte.
pub fn byte_decimal(b: u8) -> (r: String)
    ensures
        r@ == decimal(b as nat),
{
    let mut text = String::new();
    if b >= 100 {
        text.append(digit_text(b / 100));
    }
    if b >= 10 {
        text.append(digit_text((b / 10) % 10));
    }
    text.append(digit_text(b % 10));
    proof {
        let n = b as nat;
        reveal_with_fuel(decimal, 3);
        if n >= 100 {
            assert((n / 10) / 10 == n / 100);
            assert(decimal(n) =~= seq![digit_char(n / 100)].push(digit_char((n / 10) % 10)).push(
                digit_char(n % 10),
            ));
        }
        assert(text@ =~= decimal(n));
    }
    text
}

/// The canonical texts of a sequence of inputs, one per input and in the
/// same order.
pub open spec fn canonical_inputs(inputs: Seq<Scalar>) -> Seq<Seq<char>> {
    Seq::new(inputs.len(), |i: int| inputs[i].canonical())
}

/// Normalizes the inputs for the engine's encoder: one canonical decimal
/// text per input, in the order supplied. Nothing is reordered, dropped or
/// checked against the circuit.
pub fn normalize_inputs(inputs: &Vec<Scalar>) -> (r: Vec<String>)
    ensures
        r.deep_view() == canonical_inputs(inputs@),
{
    let mut out: Vec<String> = Vec::new();
    let mut i: usize = 0;
    while i < inputs.len()
        invariant
            i <= inputs.len(),
            out.len() == i,
            forall|j: int| 0 <= j < i ==> (#[trigger] out[j])@ == inputs[j].canonical(),
        decreases inputs.len() - i,
    {
        out.push(inputs[i].to_decimal());
        i += 1;
    }
    assert(out.deep_view() =~= canonical_inputs(inputs@));
    out
}

/// The named inputs of the membership circuit, as its input document gives
/// them.
#[derive(Clone, Debug, PartialEq, Eq)]
pub struct ProverInput {
    pub secret_key: String,
    pub index_bits: Vec<String>,
    pub hash_path: Vec<String>,
    pub merkle_proof_length: String,
    pub hashed_scope: String,
    pub hashed_message: String,
}

impl ProverInput {
    /// The fields laid out in the circuit's order: the secret key, the index
    /// bits, the hash path, then the path length, the scope and the message.
    pub open spec fn flattened(self) -> Seq<Seq<char>> {
        seq![self.secret_key@] + self.index_bits.deep_view() + self.hash_path.deep_view()
            + seq![self.merkle_proof_length@, self.hashed_scope@, self.hashed_message@]
    }

    /// Flattens the named inputs into the ordered scalar sequence.
    pub fn into_inputs(self) -> (r: Vec<String>)
        ensures
            r.deep_view() == self.flattened(),
    {
        let ghost bits = self.index_bits.deep_view();
        let ghost path = self.hash_path.deep_view();
        let mut index_bits = self.index_bits;
        let mut hash_path = self.hash_path;
        let mut out: Vec<String> = Vec::new();
        out.push(self.secret_key);
        out.append(&mut index_bits);
        out.append(&mut hash_path);
        out.push(self.merkle_proof_length);
        out.push(self.hashed_scope);
        out.push(self.hashed_message);
        assert(out.deep_view() =~= self.flattened());
        out
    }
}

} // verus!
