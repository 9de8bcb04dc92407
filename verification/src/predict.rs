//! How a prediction request is planned and how its reply is shaped.
//!
//! A request holds either one input or a list of inputs. The model always
//! predicts on a batch, so a single input is sent as a batch of one and its
//! reply is the first output; a list is sent as it is and answered with the
//! list of outputs, one per input, in order.
//!
//! Options arrive as optional overrides of the model's defaults: each field
//! given overrides the matching default, each field left out keeps it.
//! Thresholds are carried as the bit pattern of their IEEE 754
//! single-precision value: the logic here only moves them.

use vstd::prelude::*;

verus! {

/// Options as a caller sends them: every field may be left out.
#[derive(Clone, Copy, Debug, PartialEq, Eq, Structural)]
pub struct PredictOptions {
    /// Bit pattern of the classification threshold, if the caller gives one.
    pub threshold_bits: Option<u32>,
    /// Whether to compute feature contributions, if the caller says.
    pub compute_feature_contributions: Option<bool>,
}

/// Options the model is run with: every field has a value.
#[derive(Clone, Copy, Debug, PartialEq, Eq, Structural)]
pub struct ResolvedPredictOptions {
    /// Bit pattern of the classification threshold.
    pub threshold_bits: u32,
    /// Whether to compute feature contributions.
    pub compute_feature_contributions: bool,
}

/// The options that result from laying `options` over `defaults`.
pub open spec fn resolved_options_spec(
    options: Option<PredictOptions>,
    defaults: ResolvedPredictOptions,
) -> ResolvedPredictOptions {
    match options {
        None => defaults,
        Some(o) => ResolvedPredictOptions {
            threshold_bits: match o.threshold_bits {
                Some(t) => t,
                None => defaults.threshold_bits,
            },
            compute_feature_contributions: match o.compute_feature_contributions {
                Some(c) => c,
                None => defaults.compute_feature_contributions,
            },
        },
    }
}

/// Lays the caller's options over the model's defaults.
///
/// With no options at all the defaults are used unchanged; otherwise each
/// field the caller gives overrides the default and each field left out
/// keeps it.
pub fn resolve_predict_options(
    options: Option<PredictOptions>,
    defaults: ResolvedPredictOptions,
) -> (resolved: ResolvedPredictOptions)
    ensures
        resolved == resolved_options_spec(options, defaults),
        options is None ==> resolved == defaults,
        forall|o: PredictOptions, t: u32|
            options == Some(o) && o.threshold_bits == Some(t) ==> resolved.threshold_bits == t,
        forall|o: PredictOptions|
            options == Some(o) && o.threshold_bits is None ==> resolved.threshold_bits
                == defaults.threshold_bits,
        forall|o: PredictOptions, c: bool|
            options == Some(o) && o.compute_feature_contributions == Some(c)
                ==> resolved.compute_feature_contributions == c,
        forall|o: PredictOptions|
            options == Some(o) && o.compute_feature_contributions is None
                ==> resolved.compute_feature_contributions == defaults.compute_feature_contributions,
{
    match options {
        None => defaults,
        Some(o) => {
            let mut resolved = defaults;
            if let Some(threshold_bits) = o.threshold_bits {
                resolved.threshold_bits = threshold_bits;
            }
            if let Some(compute_feature_contributions) = o.compute_feature_contributions {
                resolved.compute_feature_contributions = compute_feature_contributions;
            }
            resolved
        },
    }
}

/// A request's inputs: one input, or a list of inputs.
pub enum PredictInputSingleOrMultiple<I> {
    Single(I),
    Multiple(Vec<I>),
}

/// A reply's outputs: one output, or a list of outputs.
pub enum PredictOutputSingleOrMultiple<O> {
    Single(O),
    Multiple(Vec<O>),
}

/// Whether a request held one input or a list of them.
#[derive(Clone, Copy, Debug, PartialEq, Eq, Structural)]
pub enum BatchShape {
    Single,
    Multiple,
}

/// What is handed to the model: the shape the reply must take, the batch of
/// inputs, and the options.
pub struct PredictRequest<I> {
    pub shape: BatchShape,
    pub inputs: Vec<I>,
    pub options: ResolvedPredictOptions,
}

impl<I> PredictInputSingleOrMultiple<I> {
    /// The shape of this request.
    pub open spec fn shape_spec(self) -> BatchShape {
        match self {
            PredictInputSingleOrMultiple::Single(_) => BatchShape::Single,
            PredictInputSingleOrMultiple::Multiple(_) => BatchShape::Multiple,
        }
    }

    /// The inputs of this request as one batch: a single input is a batch of
    /// one.
    pub open spec fn batch_spec(self) -> Seq<I> {
        match self {
            PredictInputSingleOrMultiple::Single(input) => seq![input],
            PredictInputSingleOrMultiple::Multiple(inputs) => inputs@,
        }
    }

    /// Splits the request into its shape and its batch of inputs.
    pub fn into_batch(self) -> (res: (BatchShape, Vec<I>))
        ensures
            res.0 == self.shape_spec(),
            res.1@ == self.batch_spec(),
            forall|x: I| self == PredictInputSingleOrMultiple::Single(x) ==> res.0 == BatchShape::Single
                && res.1@ == seq![x],
            forall|v: Vec<I>|
                self == PredictInputSingleOrMultiple::Multiple(v) ==> res.0 == BatchShape::Multiple
                    && res.1@ == v@,
    {
        match self {
            PredictInputSingleOrMultiple::Single(input) => {
                let mut inputs = Vec::new();
                inputs.push(input);
                (BatchShape::Single, inputs)
            },
            PredictInputSingleOrMultiple::Multiple(inputs) => (BatchShape::Multiple, inputs),
        }
    }
}

impl<O> PredictOutputSingleOrMultiple<O> {
    /// The shape of this reply.
    pub open spec fn shape_spec(self) -> BatchShape {
        match self {
            PredictOutputSingleOrMultiple::Single(_) => BatchShape::Single,
            PredictOutputSingleOrMultiple::Multiple(_) => BatchShape::Multiple,
        }
    }

    /// The outputs of this reply as a sequence.
    pub open spec fn outputs_spec(self) -> Seq<O> {
        match self {
            PredictOutputSingleOrMultiple::Single(output) => seq![output],
            PredictOutputSingleOrMultiple::Multiple(outputs) => outputs@,
        }
    }

    /// `self` is the reply of the given shape built from `outputs`.
    pub open spec fn is_reply_to(self, shape: BatchShape, outputs: Seq<O>) -> bool {
        &&& self.shape_spec() == shape
        &&& shape == BatchShape::Single ==> self.outputs_spec() == seq![outputs[0]]
        &&& shape == BatchShape::Multiple ==> self.outputs_spec() == outputs
    }

    /// Shapes the model's outputs into a reply: for a single input the reply
    /// is the first output, for a list of inputs it is the whole list.
    ///
    /// A single request needs at least one output, as the model gives one
    /// output per input.
    pub fn from_batch(shape: BatchShape, outputs: Vec<O>) -> (reply: Self)
        requires
            shape == BatchShape::Single ==> outputs.len() >= 1,
        ensures
            reply.is_reply_to(shape, outputs@),
            shape == BatchShape::Single ==> reply is Single && reply->Single_0 == outputs@[0],
            shape == BatchShape::Multiple ==> reply is Multiple && reply->Multiple_0@ == outputs@,
    {
        match shape {
            BatchShape::Single => {
                let mut outputs = outputs;
                let output = outputs.remove(0);
                PredictOutputSingleOrMultiple::Single(output)
            },
            BatchShape::Multiple => PredictOutputSingleOrMultiple::Multiple(outputs),
        }
    }
}

/// Plans a prediction: the reply's shape, the batch of inputs, and the
/// options laid over the model's defaults.
pub fn plan_predict<I>(
    input: PredictInputSingleOrMultiple<I>,
    options: Option<PredictOptions>,
    defaults: ResolvedPredictOptions,
) -> (request: PredictRequest<I>)
    ensures
        request.shape == input.shape_spec(),
        request.inputs@ == input.batch_spec(),
        request.options == resolved_options_spec(options, defaults),
        forall|x: I|
            input == PredictInputSingleOrMultiple::Single(x) ==> request.shape == BatchShape::Single
                && request.inputs@ == seq![x],
        forall|v: Vec<I>|
            input == PredictInputSingleOrMultiple::Multiple(v) ==> request.shape
                == BatchShape::Multiple && request.inputs@ == v@,
        options is None ==> request.options == defaults,
        forall|o: PredictOptions, t: u32|
            options == Some(o) && o.threshold_bits == Some(t) ==> request.options.threshold_bits == t,
        forall|o: PredictOptions|
            options == Some(o) && o.threshold_bits is None ==> request.options.threshold_bits
                == defaults.threshold_bits,
        forall|o: PredictOptions, c: bool|
            options == Some(o) && o.compute_feature_contributions == Some(c)
                ==> request.options.compute_feature_contributions == c,
        forall|o: PredictOptions|
            options == Some(o) && o.compute_feature_contributions is None
                ==> request.options.compute_feature_contributions
                == defaults.compute_feature_contributions,
{
    let (shape, inputs) = input.into_batch();
    let options = resolve_predict_options(options, defaults);
    PredictRequest { shape, inputs, options }
}

/// Without options the model runs with its defaults, and options that set
/// nothing are the same as no options.
pub proof fn lemma_unset_options_keep_defaults(defaults: ResolvedPredictOptions)
    ensures
        resolved_options_spec(None, defaults) == defaults,
        resolved_options_spec(
            Some(PredictOptions { threshold_bits: None, compute_feature_contributions: None }),
            defaults,
        ) == defaults,
{
}

/// An option the caller sets is used whatever the default is, and an option
/// the caller leaves out is the default.
pub proof fn lemma_set_options_override_defaults(
    options: PredictOptions,
    defaults: ResolvedPredictOptions,
    other_defaults: ResolvedPredictOptions,
)
    ensures
        options.threshold_bits is Some ==> resolved_options_spec(Some(options), defaults).threshold_bits
            == resolved_options_spec(Some(options), other_defaults).threshold_bits,
        options.compute_feature_contributions is Some ==> resolved_options_spec(
            Some(options),
            defaults,
        ).compute_feature_contributions == resolved_options_spec(
            Some(options),
            other_defaults,
        ).compute_feature_contributions,
        options.threshold_bits is None ==> resolved_options_spec(Some(options), defaults).threshold_bits
            == defaults.threshold_bits,
        options.compute_feature_contributions is None ==> resolved_options_spec(
            Some(options),
            defaults,
        ).compute_feature_contributions == defaults.compute_feature_contributions,
{
}

/// Laying the same options twice over the defaults is the same as laying
/// them once.
pub proof fn lemma_resolve_idempotent(options: Option<PredictOptions>, defaults: ResolvedPredictOptions)
    ensures
        resolved_options_spec(options, resolved_options_spec(options, defaults))
            == resolved_options_spec(options, defaults),
{
}

/// A single input is sent as a batch of exactly one input, a list of inputs
/// as the list itself.
pub proof fn lemma_batch_sizes<I>(input: PredictInputSingleOrMultiple<I>)
    ensures
        input.shape_spec() == BatchShape::Single ==> input.batch_spec().len() == 1,
        input matches PredictInputSingleOrMultiple::Multiple(inputs) ==> input.batch_spec()
            == inputs@,
{
}

/// When the model gives one output per input of the batch, the reply has
/// the request's shape and holds every output, in order: a single input is
/// answered with its own output, a list of inputs with one output each.
pub proof fn lemma_reply_mirrors_request<I, O>(
    input: PredictInputSingleOrMultiple<I>,
    outputs: Seq<O>,
    reply: PredictOutputSingleOrMultiple<O>,
)
    requires
        outputs.len() == input.batch_spec().len(),
        reply.is_reply_to(input.shape_spec(), outputs),
    ensures
        reply.shape_spec() == input.shape_spec(),
        reply.outputs_spec() == outputs,
        reply.outputs_spec().len() == input.batch_spec().len(),
{
    if input.shape_spec() == BatchShape::Single {
        assert(outputs =~= seq![outputs[0]]);
    }
}

/// A value the caller sets is the value used, whatever the defaults; a value
/// the caller leaves out is the default.
pub proof fn lemma_given_options_are_used(options: PredictOptions, defaults: ResolvedPredictOptions)
    ensures
        forall|t: u32|
            options.threshold_bits == Some(t) ==> #[trigger] resolved_options_spec(
                Some(options),
                defaults,
            ).threshold_bits == t,
        forall|c: bool|
            options.compute_feature_contributions == Some(c) ==> #[trigger] resolved_options_spec(
                Some(options),
                defaults,
            ).compute_feature_contributions == c,
        options.threshold_bits is None ==> resolved_options_spec(Some(options), defaults).threshold_bits
            == defaults.threshold_bits,
        options.compute_feature_contributions is None ==> resolved_options_spec(
            Some(options),
            defaults,
        ).compute_feature_contributions == defaults.compute_feature_contributions,
{
}

/// A list of inputs is planned as a list whatever its length, and its batch
/// is the list itself; a single input is planned as a single batch of it.
pub proof fn lemma_request_shape_follows_input<I>(x: I, v: Vec<I>)
    ensures
        PredictInputSingleOrMultiple::Multiple(v).shape_spec() == BatchShape::Multiple,
        PredictInputSingleOrMultiple::Multiple(v).batch_spec() == v@,
        PredictInputSingleOrMultiple::Single(x).shape_spec() == BatchShape::Single,
        PredictInputSingleOrMultiple::<I>::Single(x).batch_spec() == seq![x],
{
}

/// A single reply holds its one output and a list reply holds its list, and a
/// reply to a shape has that shape: a single reply to a single request is the
/// first output, a list reply to a list request is every output in order.
pub proof fn lemma_reply_holds_its_outputs<O>(
    o: O,
    v: Vec<O>,
    reply: PredictOutputSingleOrMultiple<O>,
    shape: BatchShape,
    outputs: Seq<O>,
)
    ensures
        PredictOutputSingleOrMultiple::Single(o).shape_spec() == BatchShape::Single,
        PredictOutputSingleOrMultiple::Single(o).outputs_spec() == seq![o],
        PredictOutputSingleOrMultiple::Multiple(v).shape_spec() == BatchShape::Multiple,
        PredictOutputSingleOrMultiple::Multiple(v).outputs_spec() == v@,
        reply.is_reply_to(shape, outputs) && shape == BatchShape::Single ==> reply is Single
            && reply->Single_0 == outputs[0],
        reply.is_reply_to(shape, outputs) && shape == BatchShape::Multiple ==> reply is Multiple
            && reply->Multiple_0@ == outputs,
{
    if reply.is_reply_to(shape, outputs) && shape == BatchShape::Single {
        assert(reply.outputs_spec()[0] == outputs[0]);
    }
}

} // verus!
