//! How the MCP tools report request problems to their clients.

use vstd::prelude::*;
use rmcp::ErrorData;
use rmcp::model::ErrorCode;
use crate::api::error::{ApiError, api_error_message};
use crate::api::validation::{PublishDurationUnit, validate_publish_duration_unit};

verus! {

/// The JSON-RPC error code of an MCP error (`rmcp::model::ErrorCode`), its
/// number visible.
#[verifier::external_type_specification]
pub struct ExErrorCode(ErrorCode);

/// A JSON value (`serde_json::Value`), carried as an opaque value.
#[verifier::external_type_specification]
#[verifier::external_body]
pub struct ExJsonValue(serde_json::Value);

/// The error of an MCP tool call (`rmcp::ErrorData`), its public fields
/// visible: the code, the message and optional data.
#[verifier::external_type_specification]
pub struct ExErrorData(ErrorData);

/// The JSON-RPC "invalid params" code.
pub const INVALID_PARAMS_CODE: i32 = -32602;
/// The JSON-RPC "internal error" code.
pub const INTERNAL_ERROR_CODE: i32 = -32603;

/// An MCP error with the "invalid params" code, this message and no data
/// (`rmcp::ErrorData::invalid_params`, which builds the error from
/// `ErrorCode::INVALID_PARAMS`, the message turned into an owned `Cow` and
/// the data given).
#[verifier::external_body]
fn invalid_params_error(message: String) -> (e: ErrorData)
    ensures
        e.code.0 == INVALID_PARAMS_CODE,
        e.message@ == message@,
        e.data is None,
{
    ErrorData::invalid_params(message, None)
}

/// An MCP error with the "internal error" code, this message and no data
/// (`rmcp::ErrorData::internal_error`, built as `invalid_params` is, from
/// `ErrorCode::INTERNAL_ERROR`).
#[verifier::external_body]
fn internal_error(message: String) -> (e: ErrorData)
    ensures
        e.code.0 == INTERNAL_ERROR_CODE,
        e.message@ == message@,
        e.data is None,
{
    ErrorData::internal_error(message, None)
}

/// Reports a metrics error to an MCP client: an invalid query as invalid
/// parameters, anything else as an internal error, either way with the
/// error's message (`ApiError::message`).
pub fn to_mcp_error(error: ApiError) -> (e: ErrorData)
    ensures
        e.code.0 == (if error is InvalidQuery { INVALID_PARAMS_CODE } else { INTERNAL_ERROR_CODE }),
        e.message@ == api_error_message(error),
        e.data is None,
{
    let message = error.message();
    if error.is_invalid_params() {
        invalid_params_error(message)
    } else {
        internal_error(message)
    }
}

/// Reads the duration unit of an MCP tool call, `days` when absent: `days`
/// or `hours`; any other unit is reported as invalid parameters.
pub fn publish_duration_unit(unit: Option<&str>) -> (r: Result<PublishDurationUnit, ErrorData>)
    ensures
        ({
            let u = match unit { Some(x) => x@, None => "days"@ };
            if u == "days"@ {
                r matches Ok(PublishDurationUnit::Days)
            } else if u == "hours"@ {
                r matches Ok(PublishDurationUnit::Hours)
            } else {
                r matches Err(e) && e.code.0 == INVALID_PARAMS_CODE
                    && e.message@ == "invalid query parameter: unit must be days or hours"@ && e.data is None
            }
        }),
{
    match validate_publish_duration_unit(unit) {
        Ok(u) => Ok(u),
        Err(e) => {
            proof {
                reveal_strlit("invalid query parameter: ");
                reveal_strlit("unit must be days or hours");
                reveal_strlit("invalid query parameter: unit must be days or hours");
                assert(api_error_message(e) =~= "invalid query parameter: unit must be days or hours"@);
            }
            Err(to_mcp_error(e))
        },
    }
}

} // verus!
