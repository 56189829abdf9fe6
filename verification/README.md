# argocd_client

A client of the Argo CD API that reads applications and turns the API's
messages into a flat application model, verified with Verus.

- `src/proto.rs`: the API messages as received, with optional fields.
- `src/models.rs`: the application model and its mathematical views.
- `src/mapping.rs`: what each message maps to, as spec functions.
- `src/client.rs`: `ArgoClient`, the requests it builds, and the verified
  conversions, each proved to produce the view that `mapping.rs` defines.
- `src/laws.rs`: properties of the conversions as a whole.
- `app/`: the gRPC-web transport and the calls that fetch applications.
