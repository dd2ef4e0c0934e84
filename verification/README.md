# microservice

A small HTTP greeting service. `src/` is the verified library: header
authentication, the mapping from errors to JSON responses, greetings, the
reversal of streamed lines, and the order of the middleware layers, each with
its contract proved by Verus. `app/` is the axum server around it: it reads
requests, talks to MongoDB and remote services, and sends back what the
library decides.
