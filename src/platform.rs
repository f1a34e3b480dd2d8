//! The platform facade without an operating-system backend. It knows nothing
//! of the foreground window: the guard therefore reports the context as
//! forbidden (fail closed), the layout query fails, and every mutation
//! reports that nothing was done, so a correction driven through it never
//! changes any text.
use vstd::prelude::*;

use crate::config::ForbiddenContextsConfig;
use crate::errors::PlatformError;

verus! {

#[derive(Clone, Copy, Debug, Default, PartialEq, Eq, Structural)]
pub struct Platform;

impl Platform {
    pub fn new() -> (r: Self) {
        Platform
    }

    pub fn switch_to_next_layout(&self, forbidden: &ForbiddenContextsConfig) -> (r: Result<bool, PlatformError>)
        ensures
            r == Ok::<bool, PlatformError>(false),
    {
        switch_to_next_layout(forbidden)
    }

    pub fn get_active_lang_id(&self) -> (r: Result<u16, PlatformError>)
        ensures
            r == Err::<u16, PlatformError>(PlatformError::OsQueryFailure),
    {
        get_active_lang_id()
    }

    pub fn set_layout_by_lang_id(&self, forbidden: &ForbiddenContextsConfig, lang_id: u16) -> (r: Result<bool, PlatformError>)
        ensures
            r == Ok::<bool, PlatformError>(false),
    {
        set_layout_by_lang_id(forbidden, lang_id)
    }

    pub fn send_backspaces(&self, forbidden: &ForbiddenContextsConfig, count: usize) -> (r: Result<bool, PlatformError>)
        ensures
            r == Ok::<bool, PlatformError>(false),
    {
        send_backspaces(forbidden, count)
    }

    pub fn send_unicode_text(&self, forbidden: &ForbiddenContextsConfig, text: &str) -> (r: Result<bool, PlatformError>)
        ensures
            r == Ok::<bool, PlatformError>(false),
    {
        send_unicode_text(forbidden, text)
    }

    pub fn is_forbidden_context(&self, forbidden: &ForbiddenContextsConfig) -> (r: Result<bool, PlatformError>)
        ensures
            r == Ok::<bool, PlatformError>(true),
    {
        is_forbidden_context(forbidden)
    }
}

pub fn switch_to_next_layout(_forbidden: &ForbiddenContextsConfig) -> (r: Result<bool, PlatformError>)
    ensures
        r == Ok::<bool, PlatformError>(false),
{
    Ok(false)
}

/// No foreground window is known, so there is no active layout to report.
pub fn get_active_lang_id() -> (r: Result<u16, PlatformError>)
    ensures
        r == Err::<u16, PlatformError>(PlatformError::OsQueryFailure),
{
    Err(PlatformError::OsQueryFailure)
}

pub fn set_layout_by_lang_id(_forbidden: &ForbiddenContextsConfig, _lang_id: u16) -> (r: Result<bool, PlatformError>)
    ensures
        r == Ok::<bool, PlatformError>(false),
{
    Ok(false)
}

pub fn send_backspaces(_forbidden: &ForbiddenContextsConfig, _count: usize) -> (r: Result<bool, PlatformError>)
    ensures
        r == Ok::<bool, PlatformError>(false),
{
    Ok(false)
}

pub fn send_unicode_text(_forbidden: &ForbiddenContextsConfig, _text: &str) -> (r: Result<bool, PlatformError>)
    ensures
        r == Ok::<bool, PlatformError>(false),
{
    Ok(false)
}

/// Without knowledge of the foreground window the context counts as forbidden.
pub fn is_forbidden_context(_forbidden: &ForbiddenContextsConfig) -> (r: Result<bool, PlatformError>)
    ensures
        r == Ok::<bool, PlatformError>(true),
{
    Ok(true)
}

} // verus!
