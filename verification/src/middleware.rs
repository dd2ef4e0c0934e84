use vstd::prelude::*;

verus! {

/// A middleware layer of the service.
#[derive(Clone, Copy, Debug, PartialEq, Eq, Structural)]
pub enum Layer {
    /// Records a tracing span for each request.
    Trace,
    /// Turns a panicking handler into a `500` response.
    CatchPanic,
    /// Lets only requests with the header `Authorization: admin=1` pass.
    AdminAuth,
    /// Extracts a [`crate::auth::User`] from the `Authorization` header.
    UserExtractor,
    /// Extracts a [`crate::auth::Person`] from the `Authorization` header.
    PersonAuth,
    /// Hands the database handle to the handlers.
    Database,
}

/// The layers of a service in the order in which they were added; a layer
/// added later wraps all the layers added before it.
pub struct ServiceStack {
    layers: Vec<Layer>,
}

impl View for ServiceStack {
    type V = Seq<Layer>;

    closed spec fn view(&self) -> Seq<Layer> {
        self.layers@
    }
}

/// The order in which the layers see a request: the last layer added is the
/// outermost, so it sees the request first.
pub open spec fn request_order(layers: Seq<Layer>) -> Seq<Layer> {
    layers.reverse()
}

/// Every catch-panic layer wraps every trace layer.
pub open spec fn catch_panic_wraps_trace(layers: Seq<Layer>) -> bool {
    forall|i: int, j: int|
        0 <= i < layers.len() && 0 <= j < layers.len() && layers[i] == Layer::Trace
            && layers[j] == Layer::CatchPanic ==> i < j
}

impl ServiceStack {
    /// A service without layers.
    pub fn new() -> (s: ServiceStack)
        ensures
            s@ == Seq::<Layer>::empty(),
    {
        ServiceStack { layers: Vec::new() }
    }

    /// Wraps the service in one more layer.
    pub fn layer(&mut self, layer: Layer)
        ensures
            final(self)@ == old(self)@.push(layer),
    {
        self.layers.push(layer);
    }

    /// The layers, in the order in which they were added.
    pub fn layers(&self) -> (l: &[Layer])
        ensures
            l@ == self@,
    {
        self.layers.as_slice()
    }

    /// Whether every catch-panic layer wraps every trace layer.
    pub fn catch_panic_wraps_trace(&self) -> (b: bool)
        ensures
            b == catch_panic_wraps_trace(self@),
    {
        let n = self.layers.len();
        let mut seen_catch_panic = false;
        let mut i: usize = 0;
        while i < n
            invariant
                n == self@.len(),
                0 <= i <= n,
                seen_catch_panic <==> exists|j: int| 0 <= j < i && self@[j] == Layer::CatchPanic,
                catch_panic_wraps_trace(self@.take(i as int)),
            decreases n - i,
        {
            if self.layers[i] == Layer::Trace && seen_catch_panic {
                assert(!catch_panic_wraps_trace(self@));
                return false;
            }
            if self.layers[i] == Layer::CatchPanic {
                seen_catch_panic = true;
            }
            i += 1;
            assert(catch_panic_wraps_trace(self@.take(i as int))) by {
                let t = self@.take(i as int);
                assert forall|a: int, b: int|
                    0 <= a < t.len() && 0 <= b < t.len() && t[a] == Layer::Trace
                        && t[b] == Layer::CatchPanic implies a < b by {
                    assert(t[a] == self@[a] && t[b] == self@[b]);
                    if a < i - 1 && b < i - 1 {
                        assert(self@.take(i - 1)[a] == t[a]);
                        assert(self@.take(i - 1)[b] == t[b]);
                    }
                }
            }
        }
        assert(self@.take(n as int) =~= self@);
        true
    }
}

/// Adds the layer that catches panics. It must be added after the tracing
/// layer, so that it wraps it.
pub fn one(stack: &mut ServiceStack)
    ensures
        final(stack)@ == old(stack)@.push(Layer::CatchPanic),
{
    stack.layer(Layer::CatchPanic);
}

/// The layer added last sees a request first, and the layers added before
/// it follow in their own request order.
pub proof fn lemma_last_added_sees_request_first(layers: Seq<Layer>, layer: Layer)
    ensures
        request_order(layers.push(layer))[0] == layer,
        request_order(layers.push(layer)) == seq![layer] + request_order(layers),
{
    let s = layers.push(layer);
    assert(request_order(s) =~= seq![layer] + request_order(layers));
}

/// Adding the catch-panic layer to a service that has none yet makes it
/// wrap every trace layer.
pub proof fn lemma_catch_panic_added_last_wraps_trace(layers: Seq<Layer>)
    requires
        !layers.contains(Layer::CatchPanic),
    ensures
        catch_panic_wraps_trace(layers.push(Layer::CatchPanic)),
{
    let s = layers.push(Layer::CatchPanic);
    assert forall|i: int, j: int|
        0 <= i < s.len() && 0 <= j < s.len() && s[i] == Layer::Trace && s[j]
            == Layer::CatchPanic implies i < j by {
        if j < layers.len() {
            assert(layers[j] == Layer::CatchPanic);
            assert(layers.contains(Layer::CatchPanic));
        }
    }
}

/// A trace layer added at any point after a catch-panic layer, right after
/// it or with other layers between them, is not wrapped by it.
pub proof fn lemma_trace_added_after_catch_panic_is_unwrapped(
    before: Seq<Layer>,
    between: Seq<Layer>,
    after: Seq<Layer>,
)
    ensures
        !catch_panic_wraps_trace(before.push(Layer::CatchPanic) + between.push(Layer::Trace) + after),
{
    let s = before.push(Layer::CatchPanic) + between.push(Layer::Trace) + after;
    let i = before.len() as int;
    let j = before.len() as int + 1 + between.len() as int;
    assert(s[i] == Layer::CatchPanic);
    assert(s[j] == Layer::Trace);
}

/// A service without catch-panic layers, or without trace layers, always
/// passes the check.
pub proof fn lemma_one_kind_missing_passes(layers: Seq<Layer>)
    requires
        !layers.contains(Layer::CatchPanic) || !layers.contains(Layer::Trace),
    ensures
        catch_panic_wraps_trace(layers),
{
    assert forall|i: int, j: int|
        0 <= i < layers.len() && 0 <= j < layers.len() && layers[i] == Layer::Trace && layers[j]
            == Layer::CatchPanic implies i < j by {
        assert(layers.contains(layers[i]));
        assert(layers.contains(layers[j]));
    }
}

} // verus!
