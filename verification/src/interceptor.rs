//! The interceptor: the script that is evaluated in the page of an inspected
//! window, and the rule that keeps a second evaluation from wrapping the
//! page's network entry points twice.
//!
//! The script marks the page the first time it runs and does nothing when it
//! finds the mark. `PageContext` is that rule as a state of its own, apart
//! from the script, so that what the rule promises can be stated and proved:
//! however often the script is evaluated, a call is captured once.

use vstd::prelude::*;

verus! {

/// The script that is evaluated in the page. It wraps `fetch` and
/// `XMLHttpRequest`, reports method, address, headers and body of every call
/// on the capture channel, and forwards the call unchanged. A failure to
/// report is logged to the page's console and never reaches the caller.
pub const INTERCEPTOR_JS: &'static str = "(function () {
  if (window.__requestInterceptorInstalled) {
    return;
  }
  window.__requestInterceptorInstalled = true;

  function report(method, url, headers, body) {
    try {
      var captured = {
        method: String(method || 'GET').toUpperCase(),
        url: String(url),
        headers: headers,
        body: body === undefined || body === null ? null : String(body),
        timestamp: Date.now()
      };
      var pending = window.__TAURI__.event.emit('http-request', captured);
      if (pending && typeof pending.catch === 'function') {
        pending.catch(function (failure) {
          console.warn('request capture failed', failure);
        });
      }
    } catch (failure) {
      console.warn('request capture failed', failure);
    }
  }

  function plainHeaders(source) {
    var plain = {};
    try {
      if (source && typeof source.forEach === 'function') {
        source.forEach(function (value, name) {
          plain[String(name).toLowerCase()] = String(value);
        });
      } else if (source) {
        Object.keys(source).forEach(function (name) {
          plain[String(name).toLowerCase()] = String(source[name]);
        });
      }
    } catch (failure) {
      console.warn('request capture failed', failure);
    }
    return plain;
  }

  var nativeFetch = window.fetch;
  if (typeof nativeFetch === 'function') {
    window.fetch = function (input, init) {
      try {
        var request = input && typeof input === 'object' && 'url' in input ? input : null;
        var options = init || {};
        report(
          options.method || (request && request.method),
          request ? request.url : input,
          plainHeaders(options.headers || (request && request.headers)),
          options.body
        );
      } catch (failure) {
        console.warn('request capture failed', failure);
      }
      return nativeFetch.apply(this, arguments);
    };
  }

  var xhr = window.XMLHttpRequest && window.XMLHttpRequest.prototype;
  if (xhr) {
    var nativeOpen = xhr.open;
    var nativeSetRequestHeader = xhr.setRequestHeader;
    var nativeSend = xhr.send;
    xhr.open = function (method, url) {
      this.__capturedRequest = { method: method, url: url, headers: {} };
      return nativeOpen.apply(this, arguments);
    };
    xhr.setRequestHeader = function (name, value) {
      if (this.__capturedRequest) {
        this.__capturedRequest.headers[String(name).toLowerCase()] = String(value);
      }
      return nativeSetRequestHeader.apply(this, arguments);
    };
    xhr.send = function (body) {
      var captured = this.__capturedRequest;
      if (captured) {
        report(captured.method, captured.url, captured.headers, body);
      }
      return nativeSend.apply(this, arguments);
    };
  }
})();
";

/// A network entry point of the page that the interceptor wraps.
#[derive(Debug, Clone, Copy, PartialEq, Eq, Structural)]
pub enum Primitive {
    Fetch,
    XmlHttpRequest,
}

/// The mathematical content of a `PageContext`: whether the page carries the
/// interceptor's mark, and how many wrappers stand around each entry point.
pub struct PageModel {
    pub marked: bool,
    pub fetch_wrappers: nat,
    pub xhr_wrappers: nat,
}

impl PageModel {
    /// A page in which the script has never run.
    pub open spec fn pristine() -> PageModel {
        PageModel { marked: false, fetch_wrappers: 0, xhr_wrappers: 0 }
    }

    /// The number of wrappers around an entry point, which is the number of
    /// capture events that one call through it sends.
    pub open spec fn wrappers(self, primitive: Primitive) -> nat {
        match primitive {
            Primitive::Fetch => self.fetch_wrappers,
            Primitive::XmlHttpRequest => self.xhr_wrappers,
        }
    }

    /// The page after one evaluation of the script: a marked page is left as
    /// it is, any other page is marked and each entry point gets one more
    /// wrapper.
    pub open spec fn evaluated(self) -> PageModel {
        if self.marked {
            self
        } else {
            PageModel {
                marked: true,
                fetch_wrappers: self.fetch_wrappers + 1,
                xhr_wrappers: self.xhr_wrappers + 1,
            }
        }
    }

    /// The page after `times` evaluations of the script.
    pub open spec fn evaluated_times(self, times: nat) -> PageModel
        decreases times,
    {
        if times == 0 {
            self
        } else {
            self.evaluated().evaluated_times((times - 1) as nat)
        }
    }
}

/// What the host knows about the page of an inspected window.
#[derive(Debug)]
pub struct PageContext {
    marked: bool,
    fetch_wrappers: u8,
    xhr_wrappers: u8,
}

impl View for PageContext {
    type V = PageModel;

    closed spec fn view(&self) -> PageModel {
        PageModel {
            marked: self.marked,
            fetch_wrappers: self.fetch_wrappers as nat,
            xhr_wrappers: self.xhr_wrappers as nat,
        }
    }
}

impl PageContext {
    #[verifier::type_invariant]
    spec fn wrapped_once(self) -> bool {
        if self.marked {
            self.fetch_wrappers == 1 && self.xhr_wrappers == 1
        } else {
            self.fetch_wrappers == 0 && self.xhr_wrappers == 0
        }
    }

    /// A page in which the script has never run.
    pub fn new() -> (page: PageContext)
        ensures
            page@ == PageModel::pristine(),
    {
        PageContext { marked: false, fetch_wrappers: 0, xhr_wrappers: 0 }
    }

    /// Evaluates the script in the page. Says whether this evaluation put the
    /// wrappers in place; an evaluation that finds the mark changes nothing.
    pub fn inject(&mut self) -> (installed: bool)
        ensures
            final(self)@ == old(self)@.evaluated(),
            installed == !old(self)@.marked,
    {
        proof {
            use_type_invariant(&*self);
        }
        if self.marked {
            false
        } else {
            *self = PageContext {
                marked: true,
                fetch_wrappers: self.fetch_wrappers + 1,
                xhr_wrappers: self.xhr_wrappers + 1,
            };
            true
        }
    }

    /// Whether the page carries the interceptor's mark.
    pub fn is_instrumented(&self) -> (marked: bool)
        ensures
            marked == self@.marked,
    {
        self.marked
    }

    /// The number of capture events that one call through `primitive` sends.
    pub fn captures_per_call(&self, primitive: Primitive) -> (count: u8)
        ensures
            count == self@.wrappers(primitive),
            count == if self@.marked {
                1nat
            } else {
                0nat
            },
    {
        proof {
            use_type_invariant(self);
        }
        match primitive {
            Primitive::Fetch => self.fetch_wrappers,
            Primitive::XmlHttpRequest => self.xhr_wrappers,
        }
    }
}

/// Evaluating the script in a page that is already marked changes nothing.
pub proof fn lemma_evaluation_idempotent(page: PageModel)
    ensures
        page.evaluated().evaluated() == page.evaluated(),
{
}

/// However often the script is evaluated in a page that started out
/// pristine, every entry point has exactly one wrapper from the first
/// evaluation on, so every call is captured exactly once.
pub proof fn lemma_one_wrapper(times: nat, primitive: Primitive)
    requires
        times >= 1,
    ensures
        PageModel::pristine().evaluated_times(times).marked,
        PageModel::pristine().evaluated_times(times).wrappers(primitive) == 1,
{
    let once = PageModel::pristine().evaluated();
    lemma_marked_is_fixed(once, (times - 1) as nat);
}

/// Further evaluations leave a marked page as it is.
pub proof fn lemma_marked_is_fixed(page: PageModel, times: nat)
    requires
        page.marked,
    ensures
        page.evaluated_times(times) == page,
    decreases times,
{
    if times > 0 {
        lemma_marked_is_fixed(page, (times - 1) as nat);
    }
}

} // verus!
