//! Result and handle types of the native message-queue API: response codes
//! that turn into driver errors, configuration results, and the opaque
//! handles the native library deals in.

use vstd::prelude::*;
use vstd::string::StringExecFns;

use crate::error::RawError;

verus! {

/// Native response code of the message-queue API; zero is success.
#[allow(non_camel_case_types)]
#[derive(Debug, Clone, Copy, PartialEq, Eq, Structural, Hash)]
pub struct tmq_resp_err_t(pub i32);

impl tmq_resp_err_t {
    /// Success when the code is zero; otherwise the given message as an error.
    pub fn ok_or(self, s: String) -> (r: Result<(), RawError>)
        ensures
            self.0 == 0 <==> r is Ok,
            self.0 != 0 ==> (r matches Err(e) && e.code is None && e.message == Some(s)),
    {
        if self.0 == 0 {
            Ok(())
        } else {
            Err(RawError::from_string(s))
        }
    }
}

/// Opaque handle to a native consumer.
#[allow(non_camel_case_types)]
#[derive(Debug, Clone, Copy)]
pub struct tmq_t;

/// Opaque handle to a native consumer configuration.
#[allow(non_camel_case_types)]
#[derive(Debug, Clone, Copy)]
pub struct tmq_conf_t;

/// Opaque handle to a native topic list.
#[allow(non_camel_case_types)]
#[derive(Debug, Clone, Copy)]
pub struct tmq_list_t;

/// Opaque handle to a native message.
#[allow(non_camel_case_types)]
#[derive(Debug, Clone, Copy)]
pub struct tmq_message_t;

/// Result of setting one key-value pair on a consumer configuration.
#[allow(non_camel_case_types)]
#[derive(Debug, Clone, Copy, PartialEq, Eq, Structural)]
pub enum tmq_conf_res_t {
    Unknown,
    Invalid,
    Okay,
}

impl tmq_conf_res_t {
    /// Success for `Okay`; otherwise an error message naming the offending
    /// key-value pair (`Invalid`) or the unknown key (`Unknown`).
    pub fn ok(self, k: &str, v: &str) -> (r: Result<(), RawError>)
        ensures
            self is Okay <==> r is Ok,
            self is Invalid ==> (r matches Err(e) && (e.message matches Some(m) && m@
                == "Invalid key value pair ("@ + k@ + ", "@ + v@ + ")"@) && e.code is None),
            self is Unknown ==> (r matches Err(e) && (e.message matches Some(m) && m@
                == "Unknown key "@ + k@) && e.code is None),
    {
        match self {
            tmq_conf_res_t::Okay => Ok(()),
            tmq_conf_res_t::Invalid => {
                let m = String::from_str("Invalid key value pair (").concat(k).concat(
                    ", ",
                ).concat(v).concat(")");
                Err(RawError::from_string(m))
            },
            tmq_conf_res_t::Unknown => {
                let m = String::from_str("Unknown key ").concat(k);
                Err(RawError::from_string(m))
            },
        }
    }
}

/// Kind of payload a received native message carries.
#[allow(non_camel_case_types)]
#[derive(Debug, PartialEq, Eq, Structural, Clone, Copy)]
pub enum tmq_res_t {
    TMQ_RES_INVALID,
    TMQ_RES_DATA,
    TMQ_RES_TABLE_META,
    TMQ_RES_METADATA,
}

} // verus!
