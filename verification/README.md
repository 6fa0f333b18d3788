# microservice

The rules of an authentication gRPC service, verified with Verus.

- `src/validation.rs`: trusted items over the `validator` crate (its
  `ValidationErrors` collection, `validate_email`, `validate_length`).
- `src/chars.rs`: the character classes of a username: English letters, and a
  trusted wrapper over `char::is_numeric`.
- `src/messages.rs`: the message a failed validation is reported with.
- `src/domain.rs`: the registration request, its validation and the use case.
- `src/adapters.rs`: the gRPC status chosen for an error, and the answers to a
  registration request and to an email verification.
- `src/config.rs`: the configuration built from environment variable values.
- `app/`: the program: environment and `.env` loading, shutdown on Ctrl-C,
  conversion to `tonic` statuses, and OpenTelemetry setup.

The protobuf definitions of the gRPC service, and the code generated from
them, are not part of this repository, and the crate does not depend on the
health, reflection, TLS and metrics crates that serving them needs. So `app/`
does not start a gRPC server: it resolves the binding address and holds the
handlers' conversions.
