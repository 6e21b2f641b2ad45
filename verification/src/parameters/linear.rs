//! Parameters for configuring linear boosters.

use vstd::prelude::*;

verus! {

/// Linear model algorithm.
#[derive(Clone, Copy)]
pub enum LinearUpdate {
    /// Parallel coordinate descent algorithm based on the shotgun algorithm.
    /// Uses `hogwild` parallelism and therefore produces a nondeterministic
    /// solution on each run.
    Shotgun,
    /// Ordinary coordinate descent algorithm. Also multithreaded but still
    /// produces a deterministic solution.
    CoordDescent,
}

impl LinearUpdate {
    /// The fixed wire string of each variant, as the native training routine
    /// expects it.
    pub open spec fn wire_str(self) -> Seq<char> {
        match self {
            LinearUpdate::Shotgun => "shotgun"@,
            LinearUpdate::CoordDescent => "coord_descent"@,
        }
    }

    /// The wire string of this variant.
    pub fn to_string(&self) -> (r: String)
        ensures
            r@ == self.wire_str(),
    {
        match *self {
            LinearUpdate::Shotgun => "shotgun".to_owned(),
            LinearUpdate::CoordDescent => "coord_descent".to_owned(),
        }
    }
}

impl Default for LinearUpdate {
    /// The default algorithm is `Shotgun`.
    fn default() -> (r: Self)
        ensures
            r == LinearUpdate::Shotgun,
    {
        LinearUpdate::Shotgun
    }
}

/// The pair sequence carried by a vector of string pairs, each string taken
/// as its character sequence.
pub open spec fn pairs_view(v: Seq<(String, String)>) -> Seq<(Seq<char>, Seq<char>)> {
    v.map(|i: int, p: (String, String)| (p.0@, p.1@))
}

/// The decimal string a regularization term takes when the builder recorded
/// none: the decimal form of zero.
pub open spec fn or_default_term(o: Option<Seq<char>>) -> Seq<char> {
    match o {
        Some(s) => s,
        None => "0"@,
    }
}

/// The algorithm chosen when the builder recorded none.
pub open spec fn or_default_updater(o: Option<LinearUpdate>) -> LinearUpdate {
    match o {
        Some(u) => u,
        None => LinearUpdate::Shotgun,
    }
}

/// Parameters for the linear booster.
///
/// The regularization terms are held as their decimal strings, exactly as
/// they are handed to the native training routine; the boundary that owns
/// floating-point values formats each term before construction.
#[derive(Clone)]
pub struct LinearBoosterParameters {
    /// L2 regularization term on weights; increasing it makes the model more
    /// conservative. Normalised to the number of training examples.
    ///
    /// * default: the decimal string of zero
    lambda: String,
    /// L1 regularization term on weights; increasing it makes the model more
    /// conservative. Normalised to the number of training examples.
    ///
    /// * default: the decimal string of zero
    alpha: String,
    /// Linear model algorithm.
    ///
    /// * default: `LinearUpdate::Shotgun`
    updater: LinearUpdate,
}

impl LinearBoosterParameters {
    /// The decimal string recorded for the L2 regularization term.
    pub closed spec fn lambda_str(self) -> Seq<char> {
        self.lambda@
    }

    /// The decimal string recorded for the L1 regularization term.
    pub closed spec fn alpha_str(self) -> Seq<char> {
        self.alpha@
    }

    /// The recorded linear model algorithm.
    pub closed spec fn updater_sel(self) -> LinearUpdate {
        self.updater
    }

    /// The serialized form: exactly four pairs, in this fixed order.
    pub open spec fn spec_pairs(self) -> Seq<(Seq<char>, Seq<char>)> {
        seq![
            ("booster"@, "gblinear"@),
            ("lambda"@, self.lambda_str()),
            ("alpha"@, self.alpha_str()),
            ("updater"@, self.updater_sel().wire_str()),
        ]
    }

    /// The decimal string of the L2 regularization term.
    pub fn lambda(&self) -> (r: &String)
        ensures
            r@ == self.lambda_str(),
    {
        &self.lambda
    }

    /// The decimal string of the L1 regularization term.
    pub fn alpha(&self) -> (r: &String)
        ensures
            r@ == self.alpha_str(),
    {
        &self.alpha
    }

    /// The linear model algorithm.
    pub fn updater(&self) -> (r: LinearUpdate)
        ensures
            r == self.updater_sel(),
    {
        self.updater
    }

    /// Serialize the configuration into the flat list of string pairs the
    /// native training routine consumes: exactly four pairs, in fixed order,
    /// beginning with the `booster` discriminator.
    pub fn as_string_pairs(&self) -> (r: Vec<(String, String)>)
        ensures
            r@.len() == 4,
            pairs_view(r@) == self.spec_pairs(),
    {
        let mut v: Vec<(String, String)> = Vec::new();
        v.push(("booster".to_owned(), "gblinear".to_owned()));
        v.push(("lambda".to_owned(), self.lambda.clone()));
        v.push(("alpha".to_owned(), self.alpha.clone()));
        v.push(("updater".to_owned(), self.updater.to_string()));
        proof {
            assert(pairs_view(v@) =~= self.spec_pairs());
        }
        v
    }
}

impl Default for LinearBoosterParameters {
    /// The documented defaults: both regularization terms zero, `Shotgun`
    /// updater.
    fn default() -> (r: Self)
        ensures
            r.lambda_str() == "0"@,
            r.alpha_str() == "0"@,
            r.updater_sel() == LinearUpdate::Shotgun,
    {
        LinearBoosterParameters {
            lambda: "0".to_owned(),
            alpha: "0".to_owned(),
            updater: LinearUpdate::Shotgun,
        }
    }
}

/// Builder for [`LinearBoosterParameters`]: starts from the documented
/// defaults and applies explicit overrides, each field independently optional.
pub struct LinearBoosterParametersBuilder {
    lambda: Option<String>,
    alpha: Option<String>,
    updater: Option<LinearUpdate>,
}

impl LinearBoosterParametersBuilder {
    /// The decimal string recorded for the L2 term, if one was supplied.
    pub closed spec fn lambda_opt(self) -> Option<Seq<char>> {
        match self.lambda {
            Some(s) => Some(s@),
            None => None,
        }
    }

    /// The decimal string recorded for the L1 term, if one was supplied.
    pub closed spec fn alpha_opt(self) -> Option<Seq<char>> {
        match self.alpha {
            Some(s) => Some(s@),
            None => None,
        }
    }

    /// The algorithm recorded, if one was supplied.
    pub closed spec fn updater_opt(self) -> Option<LinearUpdate> {
        self.updater
    }

    /// Record the decimal string of the L2 regularization term.
    pub fn lambda(self, value: String) -> (r: Self)
        ensures
            r.lambda_opt() == Some(value@),
            r.alpha_opt() == self.alpha_opt(),
            r.updater_opt() == self.updater_opt(),
    {
        LinearBoosterParametersBuilder {
            lambda: Some(value),
            alpha: self.alpha,
            updater: self.updater,
        }
    }

    /// Record the decimal string of the L1 regularization term.
    pub fn alpha(self, value: String) -> (r: Self)
        ensures
            r.alpha_opt() == Some(value@),
            r.lambda_opt() == self.lambda_opt(),
            r.updater_opt() == self.updater_opt(),
    {
        LinearBoosterParametersBuilder {
            lambda: self.lambda,
            alpha: Some(value),
            updater: self.updater,
        }
    }

    /// Record the linear model algorithm.
    pub fn updater(self, value: LinearUpdate) -> (r: Self)
        ensures
            r.updater_opt() == Some(value),
            r.lambda_opt() == self.lambda_opt(),
            r.alpha_opt() == self.alpha_opt(),
    {
        LinearBoosterParametersBuilder {
            lambda: self.lambda,
            alpha: self.alpha,
            updater: Some(value),
        }
    }

    /// Build the configuration, substituting the documented default for each
    /// field the caller did not supply. Construction is total: no combination
    /// of supplied fields can fail.
    pub fn build(&self) -> (r: LinearBoosterParameters)
        ensures
            r.lambda_str() == or_default_term(self.lambda_opt()),
            r.alpha_str() == or_default_term(self.alpha_opt()),
            r.updater_sel() == or_default_updater(self.updater_opt()),
    {
        let lambda = match &self.lambda {
            Some(s) => s.clone(),
            None => "0".to_owned(),
        };
        let alpha = match &self.alpha {
            Some(s) => s.clone(),
            None => "0".to_owned(),
        };
        let updater = match &self.updater {
            Some(u) => *u,
            None => LinearUpdate::Shotgun,
        };
        LinearBoosterParameters { lambda, alpha, updater }
    }
}

impl Default for LinearBoosterParametersBuilder {
    /// A builder with no field supplied: building it yields the defaults.
    fn default() -> (r: Self)
        ensures
            r.lambda_opt() is None,
            r.alpha_opt() is None,
            r.updater_opt() is None,
    {
        LinearBoosterParametersBuilder {
            lambda: None,
            alpha: None,
            updater: None,
        }
    }
}

/// Serialization is pure: any two outcomes of `as_string_pairs` on the same
/// configuration carry the same pair sequence.
pub proof fn lemma_serialize_idempotent(
    p: LinearBoosterParameters,
    v1: Seq<(String, String)>,
    v2: Seq<(String, String)>,
)
    requires
        pairs_view(v1) == p.spec_pairs(),
        pairs_view(v2) == p.spec_pairs(),
    ensures
        pairs_view(v1) == pairs_view(v2),
{
}

/// The pair order never varies: for every configuration the four keys stand
/// at the same fixed positions.
pub proof fn lemma_pair_order_fixed(p: LinearBoosterParameters)
    ensures
        p.spec_pairs().len() == 4,
        p.spec_pairs()[0] == ("booster"@, "gblinear"@),
        p.spec_pairs()[1].0 == "lambda"@,
        p.spec_pairs()[2].0 == "alpha"@,
        p.spec_pairs()[3].0 == "updater"@,
{
}

/// The order in which builder fields are assigned does not matter: two
/// builders whose recorded fields agree build configurations with identical
/// serialized pairs.
pub proof fn lemma_assignment_order_irrelevant(
    b1: LinearBoosterParametersBuilder,
    b2: LinearBoosterParametersBuilder,
    p1: LinearBoosterParameters,
    p2: LinearBoosterParameters,
)
    requires
        b1.lambda_opt() == b2.lambda_opt(),
        b1.alpha_opt() == b2.alpha_opt(),
        b1.updater_opt() == b2.updater_opt(),
        p1.lambda_str() == or_default_term(b1.lambda_opt()),
        p1.alpha_str() == or_default_term(b1.alpha_opt()),
        p1.updater_sel() == or_default_updater(b1.updater_opt()),
        p2.lambda_str() == or_default_term(b2.lambda_opt()),
        p2.alpha_str() == or_default_term(b2.alpha_opt()),
        p2.updater_sel() == or_default_updater(b2.updater_opt()),
    ensures
        p1.spec_pairs() == p2.spec_pairs(),
{
    assert(p1.spec_pairs() =~= p2.spec_pairs());
}

} // verus!
