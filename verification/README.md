# bloglib

A small blog built on Rocket and Diesel. `src/` is the verified library
(Verus): registration-form checks, the session guards, the sign-in decision,
post ownership checks and the text pages show. `app/` is the web server
around it: routes, database access, cookies, templates and a seeding step.
