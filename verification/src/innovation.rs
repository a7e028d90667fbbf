//! What the innovation gates make of one measurement.
use vstd::prelude::*;

use crate::error::EskfError;
use crate::gnss::UpdateDecision;
use crate::payload::Payload;

verus! {

/// Most rows of one measurement update: position and velocity together.
pub const MAX_MEASUREMENT_DIM: usize = 6;

/// Where a normalized innovation lies between the two gates.
#[derive(Clone, Copy, Debug, PartialEq, Eq, Structural)]
pub enum GateBand {
    /// Not finite, or negative.
    Unusable,
    /// At or inside the soft gate.
    Inside,
    /// Beyond the soft gate, at or inside the hard gate.
    Between,
    /// Beyond the hard gate.
    Beyond,
}

#[derive(Clone, Copy, Debug, PartialEq, Eq, Structural)]
pub enum GateVerdict {
    Reject,
    Accept,
    /// Accept with an inflated measurement covariance.
    Inflate,
}

/// The verdict of the gates. `may_inflate` tells whether the tuning lets a
/// measurement covariance grow at all.
pub open spec fn gate_verdict(
    dimension: int,
    innovation_is_definite: bool,
    band: GateBand,
    may_inflate: bool,
) -> Result<GateVerdict, EskfError> {
    if !(0 < dimension <= MAX_MEASUREMENT_DIM) {
        Err(EskfError::InvalidMeasurement)
    } else if !innovation_is_definite {
        Err(EskfError::InvalidInnovationCovariance)
    } else {
        match band {
            GateBand::Unusable => Err(EskfError::NumericalFailure),
            GateBand::Inside => Ok(GateVerdict::Accept),
            GateBand::Between => Ok(
                if may_inflate {
                    GateVerdict::Inflate
                } else {
                    GateVerdict::Accept
                },
            ),
            GateBand::Beyond => Ok(GateVerdict::Reject),
        }
    }
}

pub fn gate_innovation(
    dimension: usize,
    innovation_is_definite: bool,
    band: GateBand,
    may_inflate: bool,
) -> (r: Result<GateVerdict, EskfError>)
    ensures
        r == gate_verdict(dimension as int, innovation_is_definite, band, may_inflate),
{
    if dimension == 0 || dimension > MAX_MEASUREMENT_DIM {
        return Err(EskfError::InvalidMeasurement);
    }
    if !innovation_is_definite {
        return Err(EskfError::InvalidInnovationCovariance);
    }
    match band {
        GateBand::Unusable => Err(EskfError::NumericalFailure),
        GateBand::Inside => Ok(GateVerdict::Accept),
        GateBand::Between => if may_inflate {
            Ok(GateVerdict::Inflate)
        } else {
            Ok(GateVerdict::Accept)
        },
        GateBand::Beyond => Ok(GateVerdict::Reject),
    }
}

impl GateVerdict {
    /// The decision that is reported once the verdict has been carried out.
    pub open spec fn spec_decision<P: Payload>(self, score: P::Score) -> UpdateDecision<P> {
        match self {
            GateVerdict::Reject => UpdateDecision::RejectedInnovation { score },
            GateVerdict::Accept => UpdateDecision::Fused { score },
            GateVerdict::Inflate => UpdateDecision::Downweighted { score },
        }
    }

    pub fn decision<P: Payload>(self, score: P::Score) -> (decision: UpdateDecision<P>)
        ensures
            decision == self.spec_decision::<P>(score),
    {
        match self {
            GateVerdict::Reject => UpdateDecision::RejectedInnovation { score },
            GateVerdict::Accept => UpdateDecision::Fused { score },
            GateVerdict::Inflate => UpdateDecision::Downweighted { score },
        }
    }
}

/// Exactly the innovations beyond the hard gate are kept from contributing.
pub proof fn hard_gate_decides_contribution<P: Payload>(
    dimension: int,
    innovation_is_definite: bool,
    band: GateBand,
    may_inflate: bool,
    score: P::Score,
)
    requires
        gate_verdict(dimension, innovation_is_definite, band, may_inflate) is Ok,
    ensures
        gate_verdict(
            dimension,
            innovation_is_definite,
            band,
            may_inflate,
        )->Ok_0.spec_decision::<P>(score).accepts() <==> band != GateBand::Beyond,
{
}

/// What becomes of a measurement: inside the soft gate it counts in full, between the
/// gates with reduced weight where the tuning allows that and in full otherwise, and
/// beyond the hard gate not at all. The score is reported in every case. Only a
/// measurement of one to six rows with a definite innovation covariance and a usable
/// innovation is judged.
pub proof fn gates_grade_the_innovation<P: Payload>(
    dimension: usize,
    innovation_is_definite: bool,
    band: GateBand,
    may_inflate: bool,
    score: P::Score,
    judged: Result<GateVerdict, EskfError>,
    decision: UpdateDecision<P>,
)
    requires
        call_ensures(
            gate_innovation,
            (dimension, innovation_is_definite, band, may_inflate),
            judged,
        ),
        judged is Ok ==> call_ensures(GateVerdict::decision::<P>, (judged->Ok_0, score), decision),
    ensures
        judged is Ok <==> 1 <= dimension <= 6 && innovation_is_definite && band
            != GateBand::Unusable,
        judged is Ok && band == GateBand::Inside ==> decision == (UpdateDecision::<P>::Fused {
            score,
        }),
        judged is Ok && band == GateBand::Between && may_inflate ==> decision == (UpdateDecision::<
            P,
        >::Downweighted { score }),
        judged is Ok && band == GateBand::Between && !may_inflate ==> decision == (UpdateDecision::<
            P,
        >::Fused { score }),
        judged is Ok && band == GateBand::Beyond ==> decision == (UpdateDecision::<
            P,
        >::RejectedInnovation { score }),
        dimension == 0 || dimension > 6 ==> judged == Err::<GateVerdict, EskfError>(
            EskfError::InvalidMeasurement,
        ),
        1 <= dimension <= 6 && !innovation_is_definite ==> judged == Err::<GateVerdict, EskfError>(
            EskfError::InvalidInnovationCovariance,
        ),
        1 <= dimension <= 6 && innovation_is_definite && band == GateBand::Unusable ==> judged
            == Err::<GateVerdict, EskfError>(EskfError::NumericalFailure),
{
}

} // verus!
