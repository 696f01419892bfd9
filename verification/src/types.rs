//! Data carried through the AtomSpace and the inference engine.
//!
//! Floating-point quantities of the data model (numbers, truth and attention
//! values) are held as their IEEE-754 binary64 bit patterns (`f64::to_bits`),
//! so that the library computes only on integers.

use std::collections::HashMap;
use vstd::prelude::*;

verus! {

/// True when the 128-bit value carries the version and variant bits of a
/// random (version 4, RFC 9562 variant) UUID.
pub open spec fn is_random_uuid(bits: u128) -> bool {
    &&& (bits >> 76u128) & 0xfu128 == 4
    &&& (bits >> 62u128) & 0x3u128 == 2
}

/// Draws a fresh random UUID through `uuid::Uuid::new_v4` and returns its
/// big-endian 128-bit value (`Uuid::as_u128`). The uuid source masks the
/// random bits so that the version nibble is 4 and the variant bits are
/// `0b10`; that is all this contract claims. Which value comes out is left
/// free: it rests on the operating system's random number generator.
#[verifier::external_body]
fn random_uuid_bits() -> (bits: u128)
    ensures
        is_random_uuid(bits),
{
    uuid::Uuid::new_v4().as_u128()
}

/// Unique identifier for atoms in the AtomSpace: the 128-bit value of a UUID.
#[derive(Debug, Clone, Copy, PartialEq, Eq, Hash, Structural)]
pub struct AtomId(pub u128);

impl AtomId {
    /// A fresh random (version 4) identifier.
    pub fn new() -> (id: AtomId)
        ensures
            is_random_uuid(id.0),
    {
        AtomId(random_uuid_bits())
    }
}

impl Default for AtomId {
    fn default() -> (id: AtomId)
        ensures
            is_random_uuid(id.0),
    {
        AtomId::new()
    }
}

/// Copies a list of identifiers element by element.
pub fn copy_ids(ids: &Vec<AtomId>) -> (r: Vec<AtomId>)
    ensures
        r@ == ids@,
{
    let mut r: Vec<AtomId> = Vec::new();
    let n: usize = ids.len();
    let mut i: usize = 0;
    while i < n
        invariant
            n == ids@.len(),
            i <= n,
            r@ == ids@.take(i as int),
        decreases n - i,
    {
        r.push(ids[i]);
        i = i + 1;
        assert(r@ =~= ids@.take(i as int));
    }
    assert(ids@.take(n as int) =~= ids@);
    r
}

/// The bit pattern of the binary64 number 1.0.
pub const ONE_BITS: u64 = 0x3ff0_0000_0000_0000u64;

/// Truth value for uncertain reasoning: strength and confidence, each the
/// bit pattern of a binary64 number (nominally between 0.0 and 1.0).
#[derive(Debug, Clone, Copy, PartialEq, Eq, Structural)]
pub struct TruthValue {
    pub strength: u64,
    pub confidence: u64,
}

impl Default for TruthValue {
    /// Full strength and full confidence (1.0, 1.0).
    fn default() -> (tv: TruthValue)
        ensures
            tv.strength == ONE_BITS,
            tv.confidence == ONE_BITS,
    {
        TruthValue { strength: ONE_BITS, confidence: ONE_BITS }
    }
}

/// Attention value for atom importance: short-, long- and very-long-term
/// importance, each the bit pattern of a binary64 number.
#[derive(Debug, Clone, Copy, PartialEq, Eq, Structural)]
pub struct AttentionValue {
    pub sti: u64,
    pub lti: u64,
    pub vlti: u64,
}

impl Default for AttentionValue {
    /// No importance at all (0.0 everywhere; the bit pattern of 0.0 is 0).
    fn default() -> (av: AttentionValue)
        ensures
            av.sti == 0,
            av.lti == 0,
            av.vlti == 0,
    {
        AttentionValue { sti: 0, lti: 0, vlti: 0 }
    }
}

/// Atom type and content.
#[derive(Debug)]
pub enum AtomType {
    /// Symbol atom (concept)
    Symbol { name: String },
    /// Number atom; `value` is the bit pattern of a binary64 number
    Number { value: u64 },
    /// Expression atom (composite)
    Expression { operator: String, operands: Vec<AtomId> },
    /// Variable atom
    Variable { name: String },
    /// Link atom (relationship)
    Link { relation: String, atoms: Vec<AtomId> },
}

/// Mathematical model of an [`AtomType`].
pub enum AtomTypeModel {
    Symbol { name: Seq<char> },
    Number { value: u64 },
    Expression { operator: Seq<char>, operands: Seq<AtomId> },
    Variable { name: Seq<char> },
    Link { relation: Seq<char>, atoms: Seq<AtomId> },
}

impl View for AtomType {
    type V = AtomTypeModel;

    open spec fn view(&self) -> AtomTypeModel {
        match self {
            AtomType::Symbol { name } => AtomTypeModel::Symbol { name: name@ },
            AtomType::Number { value } => AtomTypeModel::Number { value: *value },
            AtomType::Expression { operator, operands } => AtomTypeModel::Expression {
                operator: operator@,
                operands: operands@,
            },
            AtomType::Variable { name } => AtomTypeModel::Variable { name: name@ },
            AtomType::Link { relation, atoms } => AtomTypeModel::Link {
                relation: relation@,
                atoms: atoms@,
            },
        }
    }
}

impl Clone for AtomType {
    fn clone(&self) -> (r: AtomType)
        ensures
            r@ == self@,
    {
        match self {
            AtomType::Symbol { name } => AtomType::Symbol { name: name.clone() },
            AtomType::Number { value } => AtomType::Number { value: *value },
            AtomType::Expression { operator, operands } => AtomType::Expression {
                operator: operator.clone(),
                operands: copy_ids(operands),
            },
            AtomType::Variable { name } => AtomType::Variable { name: name.clone() },
            AtomType::Link { relation, atoms } => AtomType::Link {
                relation: relation.clone(),
                atoms: copy_ids(atoms),
            },
        }
    }
}

/// The five kinds of atoms.
#[derive(Debug, Clone, Copy, PartialEq, Eq, Structural)]
pub enum AtomKind {
    Symbol,
    Number,
    Expression,
    Variable,
    Link,
}

/// The kind of an atom type.
pub open spec fn kind_of(t: AtomTypeModel) -> AtomKind {
    match t {
        AtomTypeModel::Symbol { .. } => AtomKind::Symbol,
        AtomTypeModel::Number { .. } => AtomKind::Number,
        AtomTypeModel::Expression { .. } => AtomKind::Expression,
        AtomTypeModel::Variable { .. } => AtomKind::Variable,
        AtomTypeModel::Link { .. } => AtomKind::Link,
    }
}

/// The name under which a kind is reported in statistics.
pub open spec fn kind_name(k: AtomKind) -> Seq<char> {
    match k {
        AtomKind::Symbol => "Symbol"@,
        AtomKind::Number => "Number"@,
        AtomKind::Expression => "Expression"@,
        AtomKind::Variable => "Variable"@,
        AtomKind::Link => "Link"@,
    }
}

impl AtomType {
    /// The kind of this atom type.
    pub fn kind(&self) -> (k: AtomKind)
        ensures
            k == kind_of(self@),
    {
        match self {
            AtomType::Symbol { .. } => AtomKind::Symbol,
            AtomType::Number { .. } => AtomKind::Number,
            AtomType::Expression { .. } => AtomKind::Expression,
            AtomType::Variable { .. } => AtomKind::Variable,
            AtomType::Link { .. } => AtomKind::Link,
        }
    }
}

impl AtomKind {
    /// The name of this kind, as reported in statistics.
    pub fn label(&self) -> (s: String)
        ensures
            s@ == kind_name(*self),
    {
        match self {
            AtomKind::Symbol => String::from_str("Symbol"),
            AtomKind::Number => String::from_str("Number"),
            AtomKind::Expression => String::from_str("Expression"),
            AtomKind::Variable => String::from_str("Variable"),
            AtomKind::Link => String::from_str("Link"),
        }
    }
}

/// Atom representation in the AtomSpace.
#[derive(Debug)]
pub struct Atom {
    /// Unique identifier
    pub id: AtomId,
    /// Atom type and content
    pub atom_type: AtomType,
    /// Truth value (confidence and strength)
    pub truth_value: Option<TruthValue>,
    /// Attention value
    pub attention_value: Option<AttentionValue>,
}

/// Mathematical model of an [`Atom`].
pub struct AtomModel {
    pub id: AtomId,
    pub atom_type: AtomTypeModel,
    pub truth_value: Option<TruthValue>,
    pub attention_value: Option<AttentionValue>,
}

impl View for Atom {
    type V = AtomModel;

    open spec fn view(&self) -> AtomModel {
        AtomModel {
            id: self.id,
            atom_type: self.atom_type@,
            truth_value: self.truth_value,
            attention_value: self.attention_value,
        }
    }
}

impl Clone for Atom {
    fn clone(&self) -> (r: Atom)
        ensures
            r@ == self@,
    {
        Atom {
            id: self.id,
            atom_type: self.atom_type.clone(),
            truth_value: self.truth_value,
            attention_value: self.attention_value,
        }
    }
}

/// MeTTa expression for pattern matching and evaluation.
#[derive(Debug)]
pub struct MettaExpression {
    /// Expression string in MeTTa syntax
    pub expression: String,
    /// Optional context atoms
    pub context: Vec<AtomId>,
}

impl Clone for MettaExpression {
    fn clone(&self) -> (r: MettaExpression)
        ensures
            r.expression@ == self.expression@,
            r.context@ == self.context@,
    {
        MettaExpression { expression: self.expression.clone(), context: copy_ids(&self.context) }
    }
}

/// Query pattern for AtomSpace searches.
#[derive(Debug)]
pub struct QueryPattern {
    /// Pattern expression
    pub pattern: MettaExpression,
    /// Variable bindings
    pub bindings: HashMap<String, AtomId>,
    /// Maximum number of results
    pub max_results: Option<usize>,
}

/// Query result from pattern matching.
#[derive(Debug)]
pub struct QueryResult {
    /// Matched atoms
    pub matches: Vec<Atom>,
    /// Variable bindings for each match
    pub bindings: Vec<HashMap<String, AtomId>>,
    /// Execution time in milliseconds
    pub execution_time_ms: u64,
}

/// Inference request for reasoning operations.
#[derive(Debug)]
pub struct InferenceRequest {
    /// Input premises (atoms or expressions)
    pub premises: Vec<MettaExpression>,
    /// Goal to prove or derive
    pub goal: Option<MettaExpression>,
    /// Maximum inference steps
    pub max_steps: Option<usize>,
    /// Timeout in milliseconds
    pub timeout_ms: Option<u64>,
}

/// Inference result from reasoning.
#[derive(Debug)]
pub struct InferenceResult {
    /// Derived conclusions
    pub conclusions: Vec<Atom>,
    /// Inference path/proof
    pub proof_steps: Vec<ProofStep>,
    /// Success status
    pub success: bool,
    /// Execution time in milliseconds
    pub execution_time_ms: u64,
}

/// Single step in an inference proof.
#[derive(Debug)]
pub struct ProofStep {
    /// Rule applied
    pub rule: String,
    /// Input atoms
    pub inputs: Vec<AtomId>,
    /// Output atom
    pub output: AtomId,
    /// Step description
    pub description: String,
}

/// Mathematical model of a [`ProofStep`].
pub struct ProofStepModel {
    pub rule: Seq<char>,
    pub inputs: Seq<AtomId>,
    pub output: AtomId,
    pub description: Seq<char>,
}

impl View for ProofStep {
    type V = ProofStepModel;

    open spec fn view(&self) -> ProofStepModel {
        ProofStepModel {
            rule: self.rule@,
            inputs: self.inputs@,
            output: self.output,
            description: self.description@,
        }
    }
}

/// AtomSpace statistics.
#[derive(Debug)]
pub struct AtomSpaceStats {
    /// Total number of atoms
    pub total_atoms: usize,
    /// Number of atoms of each type present, as (type name, count) pairs;
    /// each name occurs at most once and every count is positive
    pub atom_types: Vec<(String, usize)>,
    /// Memory usage in bytes
    pub memory_usage: usize,
}

} // verus!
