use vstd::prelude::*;

use crate::context::Context;
use crate::context::LocalOrUTC;

verus! {

/// A displayer whose [`Context`] can be adjusted in builder style before it is turned into
/// text, as in `value.display().verbose().limit_items(5)`.
///
/// Each builder method changes one field of the context and keeps everything else.
pub trait DisplayConfig: Sized {
    /// The context this displayer carries.
    spec fn context_of(&self) -> Context;

    /// This displayer with its context replaced by `context`.
    spec fn with_context(&self, context: Context) -> Self;

    /// Returns the context this displayer carries.
    fn context(&self) -> (r: Context)
        ensures
            r == self.context_of(),
    ;

    /// Replaces the context this displayer carries.
    fn set_context(&mut self, context: Context)
        ensures
            *final(self) == old(self).with_context(context),
            final(self).context_of() == context,
    ;

    /// Enables verbose mode: an `Option` shows as `Some(v)` / `None` instead of `v` / `-`.
    fn verbose(self) -> (r: Self)
        ensures
            r == self.with_context(Context { verbose: Some(true), ..self.context_of() }),
            r.context_of() == (Context { verbose: Some(true), ..self.context_of() }),
    {
        let mut d = self;
        let c = d.context();
        d.set_context(Context { verbose: Some(true), ..c });
        d
    }

    /// Sets the maximum number of items shown for collections; the rest are marked `...`.
    fn limit_items(self, max_items: usize) -> (r: Self)
        ensures
            r == self.with_context(Context { max_items: Some(max_items), ..self.context_of() }),
            r.context_of() == (Context { max_items: Some(max_items), ..self.context_of() }),
    {
        let mut d = self;
        let c = d.context();
        d.set_context(Context { max_items: Some(max_items), ..c });
        d
    }

    /// Shows timestamps in local time.
    fn use_local_time(self) -> (r: Self)
        ensures
            r == self.with_context(
                Context { local_or_utc: Some(LocalOrUTC::Local), ..self.context_of() },
            ),
            r.context_of() == (Context {
                local_or_utc: Some(LocalOrUTC::Local),
                ..self.context_of()
            }),
    {
        let mut d = self;
        let c = d.context();
        d.set_context(Context { local_or_utc: Some(LocalOrUTC::Local), ..c });
        d
    }

    /// Shows timestamps in UTC.
    fn use_utc_time(self) -> (r: Self)
        ensures
            r == self.with_context(
                Context { local_or_utc: Some(LocalOrUTC::Utc), ..self.context_of() },
            ),
            r.context_of() == (Context {
                local_or_utc: Some(LocalOrUTC::Utc),
                ..self.context_of()
            }),
    {
        let mut d = self;
        let c = d.context();
        d.set_context(Context { local_or_utc: Some(LocalOrUTC::Utc), ..c });
        d
    }

    /// Selects the concise time format `%H:%M:%S%.6f`.
    fn use_short_time(self) -> (r: Self)
        ensures
            r == self.with_context(Context { time_format: Some("SIMPLE"), ..self.context_of() }),
            r.context_of() == (Context { time_format: Some("SIMPLE"), ..self.context_of() }),
    {
        let mut d = self;
        let c = d.context();
        d.set_context(Context { time_format: Some("SIMPLE"), ..c });
        d
    }

    /// Selects the detailed time format `%Y-%m-%dT%H:%M:%S%.6fZ%z`.
    fn use_full_time(self) -> (r: Self)
        ensures
            r == self.with_context(Context { time_format: Some("FULL"), ..self.context_of() }),
            r.context_of() == (Context { time_format: Some("FULL"), ..self.context_of() }),
    {
        let mut d = self;
        let c = d.context();
        d.set_context(Context { time_format: Some("FULL"), ..c });
        d
    }

    /// Sets a custom time pattern, used as it stands when a timestamp is shown.
    fn with_time_format(self, time_format: &'static str) -> (r: Self)
        ensures
            r == self.with_context(Context { time_format: Some(time_format), ..self.context_of() }),
            r.context_of() == (Context {
                time_format: Some(time_format),
                ..self.context_of()
            }),
    {
        let mut d = self;
        let c = d.context();
        d.set_context(Context { time_format: Some(time_format), ..c });
        d
    }
}

} // verus!
